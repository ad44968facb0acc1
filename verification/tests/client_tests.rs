use i2p_client::{
    ClientAction, ClientEvent, ClientSetup, ClientStep, I2PClient, Phase, SamError, SamErrorKind,
    SendOutcome, Session, SessionSetup, SessionStyle, SetupStep, SigType,
};

fn next(step: SetupStep) -> (SessionSetup, Vec<u8>) {
    match step {
        SetupStep::Send { setup, command } => (setup, command),
        other => panic!("setup ended early: {:?}", other),
    }
}

fn session(full: &[u8], public: &[u8]) -> Session {
    let (setup, _) = Session::create(full, b"Anon", SessionStyle::Datagram, b"3.0", b"3.1");
    let (setup, _) = next(setup.step(b"HELLO REPLY RESULT=OK VERSION=3.1\n"));
    let mut status = b"SESSION STATUS RESULT=OK DESTINATION=".to_vec();
    status.extend_from_slice(full);
    status.push(b'\n');
    let (setup, _) = next(setup.step(&status));
    let mut named = b"NAMING REPLY RESULT=OK NAME=ME VALUE=".to_vec();
    named.extend_from_slice(public);
    named.push(b'\n');
    match setup.step(&named) {
        SetupStep::Ready(s) => s,
        other => panic!("no session: {:?}", other),
    }
}

fn refusal() -> SamError {
    SamError::bare(SamErrorKind::ConnectionRefused)
}

fn going(step: ClientStep) -> (ClientSetup, ClientAction) {
    match step {
        ClientStep::Do { setup, action } => (setup, action),
        other => panic!("construction ended early: {:?}", other),
    }
}

/// The `SESSION CREATE` line that the request leads to.
fn create_line(action: ClientAction) -> Vec<u8> {
    match action {
        ClientAction::CreateSession { setup, command } => {
            assert_eq!(command, b"HELLO VERSION MIN=3.0 MAX=3.1 \n".to_vec());
            next(setup.step(b"HELLO REPLY RESULT=OK VERSION=3.1\n")).1
        },
        other => panic!("no session asked for: {:?}", other),
    }
}

fn create_for(destination: &str) -> Vec<u8> {
    format!("SESSION CREATE STYLE=DATAGRAM ID=Anon DESTINATION={} \n", destination).into_bytes()
}

/// A construction that has its identity and has asked for its session for
/// the first time.
fn establishing(max_attempts: u8) -> ClientSetup {
    let (setup, action) = going(I2PClient::new(true, b"Anon", b"3.0", b"3.1", max_attempts));
    assert_eq!(action, ClientAction::ReadIdentity);
    let (setup, action) = going(setup.step(ClientEvent::Identity(b"SAVED".to_vec())));
    assert_eq!(create_line(action), create_for("SAVED"));
    assert_eq!(setup.phase(), Phase::EstablishingSession);
    setup
}

#[test]
fn construction_succeeds_at_the_nth_attempt() {
    for max in 1..=5u8 {
        for n in 1..=max {
            let mut setup = establishing(max);
            let mut requests = 1;
            let mut pauses = 0;
            for _ in 1..n {
                let (waiting, action) = going(setup.step(ClientEvent::Refused(refusal())));
                assert_eq!(action, ClientAction::Sleep { seconds: 3 });
                assert_eq!(waiting.phase(), Phase::BackingOff);
                pauses += 1;
                let (again, action) = going(waiting.step(ClientEvent::Slept));
                assert_eq!(create_line(action), create_for("SAVED"));
                requests += 1;
                setup = again;
            }
            match setup.step(ClientEvent::Created(session(b"SAVED", b"PUBLIC"))) {
                ClientStep::Ready(client) => {
                    assert_eq!(client.local_full_dest, b"SAVED".to_vec());
                    assert_eq!(client.local_dest, b"PUBLIC".to_vec());
                },
                other => panic!("no client: {:?}", other),
            }
            assert_eq!(requests, n);
            assert_eq!(pauses, n - 1);
        }
    }
}

#[test]
fn construction_fails_after_exactly_the_attempts_allowed() {
    for max in 1..=5u8 {
        let mut setup = establishing(max);
        let mut requests = 1;
        loop {
            match setup.step(ClientEvent::Refused(refusal())) {
                ClientStep::Failed(e) => {
                    assert_eq!(e.kind, SamErrorKind::ConnectionRefused);
                    assert_eq!(
                        e.message,
                        format!("Unable to connect: max attempts ({}) reached", max).into_bytes()
                    );
                    break;
                },
                ClientStep::Do { setup: waiting, action } => {
                    assert_eq!(action, ClientAction::Sleep { seconds: 3 });
                    let (again, action) = going(waiting.step(ClientEvent::Slept));
                    assert!(matches!(action, ClientAction::CreateSession { .. }));
                    requests += 1;
                    setup = again;
                },
                other => panic!("unexpected step {:?}", other),
            }
        }
        assert_eq!(requests, max);
    }
}

#[test]
fn construction_with_the_most_attempts_counts_them_all() {
    let mut setup = establishing(255);
    for failed in 1..255u8 {
        let (waiting, _) = going(setup.step(ClientEvent::Refused(refusal())));
        assert_eq!(waiting.attempts(), failed);
        setup = going(waiting.step(ClientEvent::Slept)).0;
    }
    assert!(matches!(setup.step(ClientEvent::Refused(refusal())), ClientStep::Failed(_)));
}

#[test]
fn construction_without_attempts_fails_before_any_session_is_asked_for() {
    let (setup, action) = going(I2PClient::new(true, b"Anon", b"3.0", b"3.1", 0));
    assert_eq!(action, ClientAction::ReadIdentity);
    match setup.step(ClientEvent::Identity(b"SAVED".to_vec())) {
        ClientStep::Failed(e) => {
            assert_eq!(e.kind, SamErrorKind::ConnectionRefused);
            assert_eq!(e.message, b"Unable to connect: max attempts (0) reached".to_vec());
        },
        other => panic!("unexpected step {:?}", other),
    }
}

#[test]
fn first_construction_mints_and_saves_an_identity() {
    let (setup, action) = going(I2PClient::new(true, b"Anon", b"3.0", b"3.1", 3));
    assert_eq!(action, ClientAction::ReadIdentity);
    assert_eq!(setup.phase(), Phase::ResolvingLocalIdentity);
    assert_eq!(setup.alias(), &b"Anon".to_vec());
    let (setup, action) = going(setup.step(ClientEvent::Identity(Vec::new())));
    assert_eq!(setup.phase(), Phase::MintingIdentity);
    assert_eq!(create_line(action), create_for("TRANSIENT"));
    let (setup, action) =
        going(setup.step(ClientEvent::Created(session(b"FRESHfull==", b"FRESHpub"))));
    assert_eq!(setup.phase(), Phase::PersistingIdentity);
    assert_eq!(action, ClientAction::SaveIdentity { destination: b"FRESHfull==".to_vec() });
    let (setup, action) = going(setup.step(ClientEvent::Saved));
    assert_eq!(setup.phase(), Phase::EstablishingSession);
    assert_eq!(create_line(action), create_for("FRESHfull=="));
    match setup.step(ClientEvent::Created(session(b"FRESHfull==", b"FRESHpub"))) {
        ClientStep::Ready(client) => {
            assert_eq!(client.local_full_dest, b"FRESHfull==".to_vec());
            assert_eq!(client.local_dest, b"FRESHpub".to_vec());
            assert_eq!(client.session().local_full_dest(), &b"FRESHfull==".to_vec());
        },
        other => panic!("no client: {:?}", other),
    }
}

#[test]
fn second_construction_reuses_the_saved_identity_verbatim() {
    let (setup, _) = going(I2PClient::new(true, b"Anon", b"3.0", b"3.1", 3));
    let (setup, action) = going(setup.step(ClientEvent::Identity(b"FRESHfull==".to_vec())));
    assert_eq!(setup.phase(), Phase::EstablishingSession);
    let line = create_line(action);
    assert_eq!(line, create_for("FRESHfull=="));
    assert!(!line.windows(9).any(|w| w == b"TRANSIENT"));
}

#[test]
fn construction_without_persistence_mints_and_saves_nothing() {
    let (setup, action) = going(I2PClient::new(false, b"Anon", b"3.0", b"3.1", 3));
    assert_eq!(setup.phase(), Phase::MintingIdentity);
    assert_eq!(create_line(action), create_for("TRANSIENT"));
    let (setup, action) = going(setup.step(ClientEvent::Created(session(b"FULL", b"PUB"))));
    assert_eq!(setup.phase(), Phase::EstablishingSession);
    assert_eq!(create_line(action), create_for("FULL"));
}

#[test]
fn construction_goes_on_with_transient_where_minting_fails() {
    let (setup, _) = going(I2PClient::new(true, b"Anon", b"3.0", b"3.1", 2));
    let (setup, _) = going(setup.step(ClientEvent::Identity(Vec::new())));
    let (setup, action) = going(setup.step(ClientEvent::Refused(refusal())));
    assert_eq!(setup.phase(), Phase::EstablishingSession);
    assert_eq!(create_line(action), create_for("TRANSIENT"));
    match setup.step(ClientEvent::Created(session(b"GIVEN", b"GIVENpub"))) {
        ClientStep::Ready(client) => {
            assert_eq!(client.local_full_dest, b"GIVEN".to_vec());
            assert_eq!(client.local_dest, b"GIVENpub".to_vec());
        },
        other => panic!("no client: {:?}", other),
    }
}

#[test]
fn an_event_that_answers_nothing_changes_nothing() {
    let (setup, _) = going(I2PClient::new(true, b"Anon", b"3.0", b"3.1", 3));
    let (setup, action) = going(setup.step(ClientEvent::Slept));
    assert_eq!(action, ClientAction::ReadIdentity);
    assert_eq!(setup.phase(), Phase::ResolvingLocalIdentity);
    let (setup, action) = going(setup.step(ClientEvent::Saved));
    assert_eq!(action, ClientAction::ReadIdentity);
    let (setup, _) = going(setup.step(ClientEvent::Identity(b"SAVED".to_vec())));
    let (setup, action) = going(setup.step(ClientEvent::Slept));
    assert_eq!(setup.phase(), Phase::EstablishingSession);
    assert_eq!(setup.attempts(), 0);
    assert_eq!(create_line(action), create_for("SAVED"));
    let (setup, _) = going(setup.step(ClientEvent::Refused(refusal())));
    let (setup, action) = going(setup.step(ClientEvent::Refused(refusal())));
    assert_eq!(action, ClientAction::Sleep { seconds: 3 });
    assert_eq!(setup.attempts(), 1);
}

#[test]
fn client_forwards_to_its_session() {
    let setup = establishing(1);
    let client = match setup.step(ClientEvent::Created(session(b"SAVED", b"PUBLIC"))) {
        ClientStep::Ready(client) => client,
        other => panic!("no client: {:?}", other),
    };
    assert_eq!(
        I2PClient::gen_request(SigType::DsaSha1),
        b"DEST GENERATE SIGNATURE_TYPE=DSA_SHA1 \n".to_vec()
    );
    assert_eq!(
        client.gen(b"DEST REPLY PUB=p PRIV=q\n").unwrap(),
        (b"p".to_vec(), b"q".to_vec())
    );
    match client.send(b"bob", b"hello", 0) {
        SendOutcome::Send { frame, warn } => {
            assert_eq!(frame, b"DATAGRAM SEND DESTINATION=bob SIZE=8 \n0\naGVsbG8=".to_vec());
            assert!(!warn);
        },
        other => panic!("unexpected outcome {:?}", other),
    }
    let d = client
        .receive(b"DATAGRAM RECEIVED DESTINATION=bob SIZE=8\n", b"1\n", b"aGVsbG8=\n")
        .unwrap();
    assert_eq!(d.from, b"bob".to_vec());
    assert_eq!(d.payload, b"hello".to_vec());
    let e = client
        .receive(b"DATAGRAM RECEIVED DESTINATION=bob SIZE=8\n", b"1\n", b"????????\n")
        .unwrap_err();
    assert_eq!(e.kind, SamErrorKind::MalformedReply);
}
