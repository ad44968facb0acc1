//! The client: how it comes to a session despite a router that is not yet
//! ready, and what it offers once it has one.
//!
//! Construction is a state machine.  `I2PClient::new` starts it and every
//! `ClientSetup::step` moves it on; each hands out one action, and the
//! caller answers it with one event.  The machine first settles the
//! identity: it takes the destination that was saved under the alias, or
//! has the router make one in a throwaway session and has it saved.  Then
//! it asks for the session itself, again after a pause where the router
//! refuses, until a session stands or the attempts are used up.
use vstd::prelude::*;
use vstd::string::*;
use crate::address_book::{book_entries, destination_of, read_entries, resolve};
use crate::connection::{dest_generate_text, generated_keys, hello_text};
use crate::datagram::{
    delivered, send_outcome, Datagram, DatagramView, SendOutcome, SendOutcomeView,
};
use crate::error::{SamError, SamErrorKind, SamErrorView};
use crate::parser::{tokens_view, Token};
use crate::session::{
    transient, wrong_style, Session, SessionSetup, SessionSetupView, SessionView,
};
use crate::sig::{SessionStyle, SigType};
use crate::text::{copy_bytes, decimal, format_decimal, push_bytes, push_text, text, text_vec};

verus! {

/// The pause between two attempts at a session, in seconds.
pub const RETRY_PAUSE_SECONDS: u64 = 3;

/// A client with its session.
#[derive(Debug, PartialEq, Eq)]
pub struct I2PClient {
    /// The destination that the session is bound to, in its full form with
    /// the private keys.  It stays local.
    pub local_full_dest: Vec<u8>,
    /// The destination in its public form, by which peers reach this client.
    pub local_dest: Vec<u8>,
    session: Session,
}

/// The mathematical value of an `I2PClient`.
pub struct I2PClientView {
    pub local_full_dest: Seq<u8>,
    pub local_dest: Seq<u8>,
    pub session: SessionView,
}

impl View for I2PClient {
    type V = I2PClientView;

    closed spec fn view(&self) -> I2PClientView {
        I2PClientView {
            local_full_dest: self.local_full_dest@,
            local_dest: self.local_dest@,
            session: self.session@,
        }
    }
}

/// Where the construction of a client stands: which answer it awaits.
#[derive(Debug, Clone, Copy, PartialEq, Eq, Structural)]
pub enum Phase {
    /// The saved identity was asked for.
    ResolvingLocalIdentity,
    /// A throwaway session was asked for, to have the router make a
    /// destination.
    MintingIdentity,
    /// The new destination was handed out to be saved.
    PersistingIdentity,
    /// The session was asked for.
    EstablishingSession,
    /// A pause was asked for, after an attempt that failed.
    BackingOff,
}

/// The construction of a client, under way.
#[derive(Debug, PartialEq, Eq)]
pub struct ClientSetup {
    phase: Phase,
    use_local: bool,
    alias: Vec<u8>,
    min_version: Vec<u8>,
    max_version: Vec<u8>,
    max_connection_attempts: u8,
    attempts: u8,
    local_full_dest: Vec<u8>,
    local_dest: Vec<u8>,
}

/// The mathematical value of a `ClientSetup`.
pub struct ClientSetupView {
    pub phase: Phase,
    /// Whether the identity is kept in a file under the alias.
    pub use_local: bool,
    pub alias: Seq<u8>,
    pub min_version: Seq<u8>,
    pub max_version: Seq<u8>,
    /// How many attempts at the session are allowed.
    pub max_connection_attempts: u8,
    /// How many attempts at the session have failed.
    pub attempts: u8,
    /// The full destination that was settled on; empty while there is none.
    pub local_full_dest: Seq<u8>,
    /// The public destination that came with it; empty while unknown.
    pub local_dest: Seq<u8>,
}

impl View for ClientSetup {
    type V = ClientSetupView;

    closed spec fn view(&self) -> ClientSetupView {
        ClientSetupView {
            phase: self.phase,
            use_local: self.use_local,
            alias: self.alias@,
            min_version: self.min_version@,
            max_version: self.max_version@,
            max_connection_attempts: self.max_connection_attempts,
            attempts: self.attempts,
            local_full_dest: self.local_full_dest@,
            local_dest: self.local_dest@,
        }
    }
}

/// What the caller reports back.
#[derive(Debug, PartialEq, Eq)]
pub enum ClientEvent {
    /// What the identity file of the alias holds; empty where there is no
    /// such file or it could not be read.
    Identity(Vec<u8>),
    /// The session that was asked for stands.
    Created(Session),
    /// The session that was asked for could not be set up.
    Refused(SamError),
    /// The destination was saved, or could not be: construction goes on
    /// either way.
    Saved,
    /// The pause is over.
    Slept,
}

/// The mathematical value of a `ClientEvent`.
pub enum ClientEventView {
    Identity(Seq<u8>),
    Created(SessionView),
    Refused(SamErrorView),
    Saved,
    Slept,
}

impl View for ClientEvent {
    type V = ClientEventView;

    open spec fn view(&self) -> ClientEventView {
        match self {
            ClientEvent::Identity(content) => ClientEventView::Identity(content@),
            ClientEvent::Created(session) => ClientEventView::Created(session@),
            ClientEvent::Refused(e) => ClientEventView::Refused(e@),
            ClientEvent::Saved => ClientEventView::Saved,
            ClientEvent::Slept => ClientEventView::Slept,
        }
    }
}

/// What the caller is asked to do.
#[derive(Debug, PartialEq, Eq)]
pub enum ClientAction {
    /// Read the identity file of the alias and report `Identity`.
    ReadIdentity,
    /// Open a connection, write `command`, run `setup` to its end and report
    /// `Created` or `Refused`.
    CreateSession { setup: SessionSetup, command: Vec<u8> },
    /// Write `destination` to the identity file of the alias and report
    /// `Saved`.
    SaveIdentity { destination: Vec<u8> },
    /// Wait for so many seconds and report `Slept`.
    Sleep { seconds: u64 },
}

/// The mathematical value of a `ClientAction`.
pub enum ClientActionView {
    ReadIdentity,
    CreateSession { setup: SessionSetupView, command: Seq<u8> },
    SaveIdentity { destination: Seq<u8> },
    Sleep { seconds: u64 },
}

impl View for ClientAction {
    type V = ClientActionView;

    open spec fn view(&self) -> ClientActionView {
        match self {
            ClientAction::ReadIdentity => ClientActionView::ReadIdentity,
            ClientAction::CreateSession { setup, command } => ClientActionView::CreateSession {
                setup: setup@,
                command: command@,
            },
            ClientAction::SaveIdentity { destination } => ClientActionView::SaveIdentity {
                destination: destination@,
            },
            ClientAction::Sleep { seconds } => ClientActionView::Sleep { seconds: *seconds },
        }
    }
}

/// What one step of the construction gives.
#[derive(Debug, PartialEq, Eq)]
pub enum ClientStep {
    /// Do `action` and hand the event that answers it to `setup`.
    Do { setup: ClientSetup, action: ClientAction },
    /// The client stands.
    Ready(I2PClient),
    /// Construction has failed for good.
    Failed(SamError),
}

/// The mathematical value of a `ClientStep`.
pub enum ClientStepView {
    Do { setup: ClientSetupView, action: ClientActionView },
    Ready(I2PClientView),
    Failed(SamErrorView),
}

impl View for ClientStep {
    type V = ClientStepView;

    open spec fn view(&self) -> ClientStepView {
        match self {
            ClientStep::Do { setup, action } => ClientStepView::Do {
                setup: setup@,
                action: action@,
            },
            ClientStep::Ready(client) => ClientStepView::Ready(client@),
            ClientStep::Failed(e) => ClientStepView::Failed(e@),
        }
    }
}

impl ClientSetupView {
    /// The destination to ask the session for: the one settled on, or
    /// `TRANSIENT` where there is none.
    pub open spec fn target(self) -> Seq<u8> {
        if self.local_full_dest.len() == 0 {
            transient()
        } else {
            self.local_full_dest
        }
    }

    /// The request for a datagram session under the alias, bound to
    /// `destination`.
    pub open spec fn session_request(self, destination: Seq<u8>) -> ClientActionView {
        ClientActionView::CreateSession {
            setup: SessionSetupView::Hello {
                destination,
                nickname: self.alias,
                style: SessionStyle::Datagram,
                min_version: self.min_version,
                max_version: self.max_version,
            },
            command: hello_text(self.min_version, self.max_version),
        }
    }

    /// The action that is out in this state.
    pub open spec fn pending(self) -> ClientActionView {
        match self.phase {
            Phase::ResolvingLocalIdentity => ClientActionView::ReadIdentity,
            Phase::MintingIdentity => self.session_request(transient()),
            Phase::PersistingIdentity => ClientActionView::SaveIdentity {
                destination: self.local_full_dest,
            },
            Phase::EstablishingSession => self.session_request(self.target()),
            Phase::BackingOff => ClientActionView::Sleep { seconds: RETRY_PAUSE_SECONDS },
        }
    }

    /// This state, with its action handed out.
    pub open spec fn proceed(self) -> ClientStepView {
        ClientStepView::Do { setup: self, action: self.pending() }
    }

    /// The error that ends construction when the attempts are used up.
    pub open spec fn refused(self) -> SamErrorView {
        SamErrorView {
            kind: SamErrorKind::ConnectionRefused,
            result: Seq::empty(),
            message: text("Unable to connect: max attempts (") + decimal(
                self.max_connection_attempts as nat,
            ) + text(") reached"),
        }
    }

    /// The identity is settled: the first attempt at the session, or
    /// failure at once where no attempt is allowed.
    pub open spec fn establish(self) -> ClientStepView {
        if self.max_connection_attempts == 0 {
            ClientStepView::Failed(self.refused())
        } else {
            (ClientSetupView { phase: Phase::EstablishingSession, ..self }).proceed()
        }
    }

    /// The client that the session completes.  Its full destination is the
    /// one settled on before, or that of the session where none was; its
    /// public destination is that of the session.
    pub open spec fn client(self, session: SessionView) -> I2PClientView {
        I2PClientView {
            local_full_dest: if self.local_full_dest.len() == 0 {
                session.local_full_dest
            } else {
                self.local_full_dest
            },
            local_dest: session.local_dest,
            session,
        }
    }

    /// The step that `event` brings about in this state.
    ///
    /// A saved identity that is not empty is the destination; without one
    /// a throwaway session is asked for.  The throwaway session gives the
    /// destination, which is handed out to be saved where identities are
    /// kept; where it fails, construction goes on without a destination.
    /// A session that stands completes the client.  One that fails counts
    /// as an attempt: after the last one allowed, construction fails with
    /// `ConnectionRefused`, and before that a pause follows and then the
    /// next attempt.  An event that does not answer the action that is out
    /// changes nothing, and the action is handed out again.
    pub open spec fn step(self, event: ClientEventView) -> ClientStepView {
        match (self.phase, event) {
            (Phase::ResolvingLocalIdentity, ClientEventView::Identity(content)) => {
                if content.len() > 0 {
                    (ClientSetupView { local_full_dest: content, ..self }).establish()
                } else {
                    (ClientSetupView { phase: Phase::MintingIdentity, ..self }).proceed()
                }
            },
            (Phase::MintingIdentity, ClientEventView::Created(session)) => {
                let minted = ClientSetupView {
                    local_full_dest: session.local_full_dest,
                    local_dest: session.local_dest,
                    ..self
                };
                if self.use_local && session.local_full_dest.len() > 0 {
                    (ClientSetupView { phase: Phase::PersistingIdentity, ..minted }).proceed()
                } else {
                    minted.establish()
                }
            },
            (Phase::MintingIdentity, ClientEventView::Refused(_)) => self.establish(),
            (Phase::PersistingIdentity, ClientEventView::Saved) => self.establish(),
            (Phase::EstablishingSession, ClientEventView::Created(session)) => {
                ClientStepView::Ready(self.client(session))
            },
            (Phase::EstablishingSession, ClientEventView::Refused(_)) => {
                if self.attempts + 1 >= self.max_connection_attempts {
                    ClientStepView::Failed(self.refused())
                } else {
                    (ClientSetupView {
                        phase: Phase::BackingOff,
                        attempts: (self.attempts + 1) as u8,
                        ..self
                    }).proceed()
                }
            },
            (Phase::BackingOff, ClientEventView::Slept) => {
                (ClientSetupView { phase: Phase::EstablishingSession, ..self }).proceed()
            },
            _ => self.proceed(),
        }
    }
}

/// The state in which construction starts: at the saved identity where
/// identities are kept, and at the throwaway session where they are not.
pub open spec fn initial_setup(
    use_local: bool,
    alias: Seq<u8>,
    min_version: Seq<u8>,
    max_version: Seq<u8>,
    max_connection_attempts: u8,
) -> ClientSetupView {
    ClientSetupView {
        phase: if use_local {
            Phase::ResolvingLocalIdentity
        } else {
            Phase::MintingIdentity
        },
        use_local,
        alias,
        min_version,
        max_version,
        max_connection_attempts,
        attempts: 0,
        local_full_dest: Seq::empty(),
        local_dest: Seq::empty(),
    }
}

impl ClientSetup {
    pub fn phase(&self) -> (p: Phase)
        ensures
            p == self@.phase,
    {
        self.phase
    }

    /// How many attempts at the session have failed.
    pub fn attempts(&self) -> (n: u8)
        ensures
            n == self@.attempts,
    {
        self.attempts
    }

    /// The alias under which the identity is kept.
    pub fn alias(&self) -> (a: &Vec<u8>)
        ensures
            a@ == self@.alias,
    {
        &self.alias
    }

    fn session_request(&self, destination: &[u8]) -> (a: ClientAction)
        ensures
            a@ == self@.session_request(destination@),
    {
        let (setup, command) = Session::create(
            destination,
            self.alias.as_slice(),
            SessionStyle::Datagram,
            self.min_version.as_slice(),
            self.max_version.as_slice(),
        );
        ClientAction::CreateSession { setup, command }
    }

    fn pending(&self) -> (a: ClientAction)
        ensures
            a@ == self@.pending(),
    {
        match self.phase {
            Phase::ResolvingLocalIdentity => ClientAction::ReadIdentity,
            Phase::MintingIdentity => {
                let destination = text_vec("TRANSIENT");
                self.session_request(destination.as_slice())
            },
            Phase::PersistingIdentity => ClientAction::SaveIdentity {
                destination: copy_bytes(self.local_full_dest.as_slice()),
            },
            Phase::EstablishingSession => {
                if self.local_full_dest.len() == 0 {
                    let destination = text_vec("TRANSIENT");
                    self.session_request(destination.as_slice())
                } else {
                    self.session_request(self.local_full_dest.as_slice())
                }
            },
            Phase::BackingOff => ClientAction::Sleep { seconds: RETRY_PAUSE_SECONDS },
        }
    }

    fn proceed(self) -> (r: ClientStep)
        ensures
            r@ == self@.proceed(),
    {
        let action = self.pending();
        ClientStep::Do { setup: self, action }
    }

    fn refused(&self) -> (e: SamError)
        ensures
            e@ == self@.refused(),
    {
        let mut message = text_vec("Unable to connect: max attempts (");
        let count = format_decimal(self.max_connection_attempts as usize);
        push_bytes(&mut message, count.as_slice());
        push_text(&mut message, ") reached");
        SamError::new(SamErrorKind::ConnectionRefused, Vec::new(), message)
    }

    fn establish(self) -> (r: ClientStep)
        ensures
            r@ == self@.establish(),
    {
        if self.max_connection_attempts == 0 {
            ClientStep::Failed(self.refused())
        } else {
            let mut next = self;
            next.phase = Phase::EstablishingSession;
            next.proceed()
        }
    }

    /// Takes the event that answers the action last handed out.
    pub fn step(self, event: ClientEvent) -> (r: ClientStep)
        ensures
            r@ == self@.step(event@),
    {
        let mut next = self;
        match next.phase {
            Phase::ResolvingLocalIdentity => match event {
                ClientEvent::Identity(content) => {
                    if content.len() > 0 {
                        next.local_full_dest = content;
                        next.establish()
                    } else {
                        next.phase = Phase::MintingIdentity;
                        next.proceed()
                    }
                },
                _ => next.proceed(),
            },
            Phase::MintingIdentity => match event {
                ClientEvent::Created(session) => {
                    next.local_full_dest = copy_bytes(session.local_full_dest().as_slice());
                    next.local_dest = copy_bytes(session.local_dest().as_slice());
                    if next.use_local && next.local_full_dest.len() > 0 {
                        next.phase = Phase::PersistingIdentity;
                        next.proceed()
                    } else {
                        next.establish()
                    }
                },
                ClientEvent::Refused(_) => next.establish(),
                _ => next.proceed(),
            },
            Phase::PersistingIdentity => match event {
                ClientEvent::Saved => next.establish(),
                _ => next.proceed(),
            },
            Phase::EstablishingSession => match event {
                ClientEvent::Created(session) => {
                    let local_full_dest = if next.local_full_dest.len() == 0 {
                        copy_bytes(session.local_full_dest().as_slice())
                    } else {
                        next.local_full_dest
                    };
                    let local_dest = copy_bytes(session.local_dest().as_slice());
                    ClientStep::Ready(I2PClient { local_full_dest, local_dest, session })
                },
                ClientEvent::Refused(_) => {
                    let failed: u16 = next.attempts as u16 + 1;
                    if failed >= next.max_connection_attempts as u16 {
                        ClientStep::Failed(next.refused())
                    } else {
                        next.phase = Phase::BackingOff;
                        next.attempts = failed as u8;
                        next.proceed()
                    }
                },
                _ => next.proceed(),
            },
            Phase::BackingOff => match event {
                ClientEvent::Slept => {
                    next.phase = Phase::EstablishingSession;
                    next.proceed()
                },
                _ => next.proceed(),
            },
        }
    }
}

impl I2PClient {
    /// Starts the construction of a client.  `use_local` says whether the
    /// identity is kept in a file under `alias`; the session runs under the
    /// alias as its nickname and offers the protocol versions from
    /// `min_version` to `max_version`; `max_connection_attempts` is how
    /// often the session may be tried.
    pub fn new(
        use_local: bool,
        alias: &[u8],
        min_version: &[u8],
        max_version: &[u8],
        max_connection_attempts: u8,
    ) -> (r: ClientStep)
        ensures
            r@ == initial_setup(
                use_local,
                alias@,
                min_version@,
                max_version@,
                max_connection_attempts,
            ).proceed(),
    {
        let setup = ClientSetup {
            phase: if use_local {
                Phase::ResolvingLocalIdentity
            } else {
                Phase::MintingIdentity
            },
            use_local,
            alias: copy_bytes(alias),
            min_version: copy_bytes(min_version),
            max_version: copy_bytes(max_version),
            max_connection_attempts,
            attempts: 0,
            local_full_dest: Vec::new(),
            local_dest: Vec::new(),
        };
        setup.proceed()
    }

    /// The entries of the address book `book`, in the order of its lines:
    /// the key of each is an alias and the value its destination.
    pub fn aliases(book: &[u8]) -> (r: Vec<Token>)
        ensures
            tokens_view(r@) == book_entries(book@),
    {
        read_entries(book)
    }

    /// The destination that the address book `book` gives for `alias`, and
    /// the text `None` where it gives none.
    pub fn dest(book: &[u8], alias: &[u8]) -> (r: Vec<u8>)
        ensures
            r@ == destination_of(book@, alias@),
    {
        resolve(book, alias)
    }

    /// The session of the client.
    pub fn session(&self) -> (s: &Session)
        ensures
            s@ == self@.session,
    {
        &self.session
    }

    /// The command that asks the router for a fresh pair of keys.
    pub fn gen_request(sig_type: SigType) -> (command: Vec<u8>)
        ensures
            command@ == dest_generate_text(sig_type),
    {
        Session::gen_request(sig_type)
    }

    /// Reads the router's answer to `DEST GENERATE`: the public and the
    /// private key.
    pub fn gen(&self, reply: &[u8]) -> (r: Result<(Vec<u8>, Vec<u8>), SamError>)
        ensures
            match r {
                Ok(keys) => generated_keys(reply@) == Ok::<(Seq<u8>, Seq<u8>), SamErrorView>(
                    (keys.0@, keys.1@),
                ),
                Err(e) => generated_keys(reply@) == Err::<(Seq<u8>, Seq<u8>), SamErrorView>(e@),
            },
    {
        self.session.gen(reply)
    }

    /// What to write to send `msg` to `to`, if anything.  The datagram is
    /// sent once; whether to send again is up to the caller.
    pub fn send(&self, to: &[u8], msg: &[u8], ack: u8) -> (r: SendOutcome)
        ensures
            r@ == if self@.session.style == SessionStyle::Stream {
                SendOutcomeView::WrongStyle
            } else {
                send_outcome(to@, msg@, ack)
            },
    {
        self.session.send_msg(to, msg, ack)
    }

    /// Reads a datagram that the router delivered in three lines: its
    /// sender, its payload and the acknowledgement that the sender asks
    /// for.
    pub fn receive(&self, header: &[u8], ack: &[u8], body: &[u8]) -> (r: Result<
        Datagram,
        SamError,
    >)
        ensures
            match r {
                Ok(d) => self@.session.style != SessionStyle::Stream && delivered(
                    header@,
                    ack@,
                    body@,
                ) == Ok::<DatagramView, SamErrorView>(d@),
                Err(e) => if self@.session.style == SessionStyle::Stream {
                    e@ == wrong_style()
                } else {
                    delivered(header@, ack@, body@) == Err::<DatagramView, SamErrorView>(e@)
                },
            },
    {
        self.session.recv_msg(header, ack, body)
    }
}

} // verus!
