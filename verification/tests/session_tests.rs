use i2p_client::{
    AckMode, SamConnection, SamErrorKind, SendOutcome, Session, SessionSetup, SessionStyle,
    SetupStep, SigType, StreamConnect,
};

fn next(step: SetupStep) -> (SessionSetup, Vec<u8>) {
    match step {
        SetupStep::Send { setup, command } => (setup, command),
        other => panic!("setup ended early: {:?}", other),
    }
}

fn failure(step: SetupStep) -> SamErrorKind {
    match step {
        SetupStep::Failed(e) => e.kind,
        other => panic!("setup went on: {:?}", other),
    }
}

fn session(style: SessionStyle) -> Session {
    let (setup, _) = Session::create(b"TRANSIENT", b"nick", style, b"3.0", b"3.1");
    let (setup, _) = next(setup.step(b"HELLO REPLY RESULT=OK VERSION=3.1\n"));
    let (setup, _) = next(setup.step(b"SESSION STATUS RESULT=OK DESTINATION=FULLDEST\n"));
    match setup.step(b"NAMING REPLY RESULT=OK NAME=ME VALUE=PUBDEST\n") {
        SetupStep::Ready(s) => s,
        other => panic!("no session: {:?}", other),
    }
}

#[test]
fn create_request_names_style_nickname_and_destination() {
    assert_eq!(
        Session::create_request(b"TRANSIENT", b"nick", SessionStyle::Datagram),
        b"SESSION CREATE STYLE=DATAGRAM ID=nick DESTINATION=TRANSIENT \n".to_vec()
    );
    assert_eq!(
        Session::create_request(b"SAVEDdest==", b"Anon", SessionStyle::Raw),
        b"SESSION CREATE STYLE=RAW ID=Anon DESTINATION=SAVEDdest== \n".to_vec()
    );
    assert_eq!(
        Session::create_request(b"TRANSIENT", b"s", SessionStyle::Stream),
        b"SESSION CREATE STYLE=STREAM ID=s DESTINATION=TRANSIENT \n".to_vec()
    );
}

#[test]
fn setup_runs_handshake_create_and_lookup_in_turn() {
    let (setup, hello) =
        Session::create(b"TRANSIENT", b"nick", SessionStyle::Datagram, b"3.0", b"3.1");
    assert_eq!(hello, b"HELLO VERSION MIN=3.0 MAX=3.1 \n".to_vec());
    let (setup, create) = next(setup.step(b"HELLO REPLY RESULT=OK VERSION=3.1\n"));
    assert_eq!(create, b"SESSION CREATE STYLE=DATAGRAM ID=nick DESTINATION=TRANSIENT \n".to_vec());
    let (setup, lookup) = next(setup.step(b"SESSION STATUS RESULT=OK DESTINATION=FULLDEST\n"));
    assert_eq!(lookup, b"NAMING LOOKUP NAME=ME \n".to_vec());
    match setup.step(b"NAMING REPLY RESULT=OK NAME=ME VALUE=PUBDEST\n") {
        SetupStep::Ready(s) => {
            assert_eq!(s.local_full_dest(), &b"FULLDEST".to_vec());
            assert_eq!(s.local_dest(), &b"PUBDEST".to_vec());
            assert_eq!(s.style(), SessionStyle::Datagram);
            assert_eq!(s.sam().current_version(), &b"3.1".to_vec());
            assert!(!s.is_closed());
        },
        other => panic!("no session: {:?}", other),
    }
}

#[test]
fn setup_asks_for_a_saved_destination_by_its_text() {
    let (setup, _) = Session::create(b"SAVED~dest==", b"Anon", SessionStyle::Datagram, b"3.0", b"3.1");
    let (_, create) = next(setup.step(b"HELLO REPLY RESULT=OK VERSION=3.1\n"));
    assert_eq!(
        create,
        b"SESSION CREATE STYLE=DATAGRAM ID=Anon DESTINATION=SAVED~dest== \n".to_vec()
    );
}

#[test]
fn setup_fails_at_the_handshake() {
    let (setup, _) = Session::create(b"TRANSIENT", b"n", SessionStyle::Datagram, b"3.0", b"3.1");
    assert_eq!(failure(setup.step(b"HELLO REPLY RESULT=NOVERSION\n")), SamErrorKind::NoVersion);
    let (setup, _) = Session::create(b"TRANSIENT", b"n", SessionStyle::Datagram, b"3.0", b"3.1");
    assert_eq!(
        failure(setup.step(b"HELLO REPLY RESULT=I2P_ERROR MESSAGE=x\n")),
        SamErrorKind::ConnectionRefused
    );
    let (setup, _) = Session::create(b"TRANSIENT", b"n", SessionStyle::Datagram, b"3.0", b"3.1");
    assert_eq!(failure(setup.step(b"garbage")), SamErrorKind::MalformedReply);
}

#[test]
fn setup_fails_at_session_create() {
    let start = || {
        let (setup, _) =
            Session::create(b"TRANSIENT", b"n", SessionStyle::Datagram, b"3.0", b"3.1");
        next(setup.step(b"HELLO REPLY RESULT=OK VERSION=3.1\n")).0
    };
    assert_eq!(
        failure(start().step(b"SESSION STATUS RESULT=DUPLICATED_DEST\n")),
        SamErrorKind::AddressInUse
    );
    assert_eq!(
        failure(start().step(b"SESSION STATUS RESULT=INVALID_KEY\n")),
        SamErrorKind::InvalidInput
    );
    assert_eq!(
        failure(start().step(b"SESSION STATUS RESULT=I2P_ERROR MESSAGE=busy\n")),
        SamErrorKind::RouterError
    );
    assert_eq!(
        failure(start().step(b"SESSION STATUS RESULT=OK\n")),
        SamErrorKind::MalformedReply
    );
    assert_eq!(
        failure(start().step(b"HELLO REPLY RESULT=OK VERSION=3.1\n")),
        SamErrorKind::MalformedReply
    );
}

#[test]
fn setup_fails_at_the_lookup() {
    let start = || {
        let (setup, _) =
            Session::create(b"TRANSIENT", b"n", SessionStyle::Datagram, b"3.0", b"3.1");
        let (setup, _) = next(setup.step(b"HELLO REPLY RESULT=OK VERSION=3.1\n"));
        next(setup.step(b"SESSION STATUS RESULT=OK DESTINATION=FULL\n")).0
    };
    assert_eq!(
        failure(start().step(b"NAMING REPLY RESULT=KEY_NOT_FOUND NAME=ME\n")),
        SamErrorKind::NotFound
    );
    assert_eq!(
        failure(start().step(b"NAMING REPLY RESULT=OK NAME=ME\n")),
        SamErrorKind::MalformedReply
    );
}

#[test]
fn session_forwards_lookup_and_key_generation() {
    let s = session(SessionStyle::Datagram);
    assert_eq!(Session::naming_lookup_request(b"bob.i2p"), b"NAMING LOOKUP NAME=bob.i2p \n".to_vec());
    assert_eq!(
        s.naming_lookup(b"NAMING REPLY RESULT=OK NAME=bob.i2p VALUE=BOBDEST\n").unwrap(),
        b"BOBDEST".to_vec()
    );
    assert_eq!(
        Session::gen_request(SigType::RedDsaSha512Ed25519),
        b"DEST GENERATE SIGNATURE_TYPE=REDDSA_SHA512_ED25519 \n".to_vec()
    );
    assert_eq!(
        s.gen(b"DEST REPLY PUB=p PRIV=q\n").unwrap(),
        (b"p".to_vec(), b"q".to_vec())
    );
}

#[test]
fn datagram_and_raw_sessions_carry_datagrams() {
    for style in [SessionStyle::Datagram, SessionStyle::Raw] {
        let s = session(style);
        assert!(matches!(s.send_msg(b"bob", b"hi", 1), SendOutcome::Send { .. }));
        let d = s
            .recv_msg(b"DATAGRAM RECEIVED DESTINATION=bob SIZE=4\n", b"2\n", b"aGk=\n")
            .unwrap();
        assert_eq!(d.payload, b"hi".to_vec());
        assert_eq!(d.ack, AckMode::AckAndWait);
    }
}

#[test]
fn stream_session_carries_no_datagrams() {
    let s = session(SessionStyle::Stream);
    assert_eq!(s.send_msg(b"bob", b"hi", 1), SendOutcome::WrongStyle);
    let e = s
        .recv_msg(b"DATAGRAM RECEIVED DESTINATION=bob SIZE=4\n", b"2\n", b"aGk=\n")
        .unwrap_err();
    assert_eq!(e.kind, SamErrorKind::InvalidInput);
    assert_eq!(e.message, b"session style carries no datagrams".to_vec());
}

#[test]
fn close_asks_for_one_shutdown_only() {
    let mut s = session(SessionStyle::Datagram);
    assert!(!s.is_closed());
    assert!(s.close());
    assert!(s.is_closed());
    assert!(!s.close());
    assert!(!s.close());
    assert!(s.is_closed());
    assert_eq!(s.local_dest(), &b"PUBDEST".to_vec());
}

#[test]
fn session_duplicate_carries_the_state_over() {
    let mut s = session(SessionStyle::Raw);
    assert_eq!(s.duplicate(), s);
    s.close();
    assert!(s.duplicate().is_closed());
}

#[test]
fn stream_connect_request() {
    assert_eq!(
        StreamConnect::connect_request(b"nick", b"bob.i2p", 80),
        b"STREAM CONNECT ID=nick DESTINATION=bob.i2p SILENT=false TO_PORT=80\n".to_vec()
    );
    assert_eq!(
        StreamConnect::connect_request(b"n", b"d", 65535),
        b"STREAM CONNECT ID=n DESTINATION=d SILENT=false TO_PORT=65535\n".to_vec()
    );
    assert_eq!(
        StreamConnect::connect_request(b"n", b"d", 0),
        b"STREAM CONNECT ID=n DESTINATION=d SILENT=false TO_PORT=0\n".to_vec()
    );
}

#[test]
fn stream_status_outcomes() {
    assert_eq!(StreamConnect::status(b"STREAM STATUS RESULT=OK\n"), Ok(()));
    assert_eq!(
        StreamConnect::status(b"STREAM STATUS RESULT=CANT_REACH_PEER MESSAGE=x\n")
            .unwrap_err()
            .kind,
        SamErrorKind::NotFound
    );
    assert_eq!(
        StreamConnect::status(b"STREAM STATUS RESULT=TIMEOUT\n").unwrap_err().kind,
        SamErrorKind::TimedOut
    );
    assert_eq!(
        StreamConnect::status(b"SESSION STATUS RESULT=OK\n").unwrap_err().kind,
        SamErrorKind::MalformedReply
    );
}

#[test]
fn stream_is_completed_by_the_lookup_of_the_peer() {
    let sam = SamConnection::connect(b"3.0", b"3.1", b"HELLO REPLY RESULT=OK VERSION=3.1\n")
        .unwrap();
    let stream = StreamConnect::new(
        sam,
        session(SessionStyle::Stream),
        8080,
        b"NAMING REPLY RESULT=OK NAME=bob.i2p VALUE=BOBDEST\n",
    )
    .unwrap();
    assert_eq!(stream.peer_addr(), (b"BOBDEST".to_vec(), 8080));
    assert_eq!(stream.local_addr(), (b"FULLDEST".to_vec(), 0));
    assert_eq!(stream.duplicate(), stream);
    assert_eq!(stream.session().style(), SessionStyle::Stream);
    assert_eq!(stream.sam().current_version(), &b"3.1".to_vec());
}

#[test]
fn stream_fails_where_the_peer_is_unknown() {
    let sam = SamConnection::connect(b"3.0", b"3.1", b"HELLO REPLY RESULT=OK VERSION=3.1\n")
        .unwrap();
    let e = StreamConnect::new(
        sam,
        session(SessionStyle::Stream),
        8080,
        b"NAMING REPLY RESULT=KEY_NOT_FOUND NAME=bob.i2p\n",
    )
    .unwrap_err();
    assert_eq!(e.kind, SamErrorKind::NotFound);
}
