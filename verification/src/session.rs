//! Sessions: how one is set up over a fresh control connection, and what it
//! offers once it stands.
//!
//! Setting a session up takes three exchanges on one connection: the
//! handshake, `SESSION CREATE`, which gives the full destination of the
//! session, and a lookup of the name `ME`, which gives the public one.
//! `SessionSetup` holds how far this has come.  The caller writes the
//! command that a step hands out, reads one line and hands it to the next
//! step, until the session is ready or an error ends the setup.
use vstd::prelude::*;
use vstd::string::*;
use vstd::utf8::encode_utf8;
use crate::connection::{
    connected, generated_keys, named_value, naming_lookup_text, SamConnection,
    SamConnectionView,
};
use crate::datagram::{
    delivered, send_outcome, Datagram, DatagramView, SendOutcome, SendOutcomeView,
};
use crate::error::{SamError, SamErrorKind, SamErrorView};
use crate::parser::{find, lookup};
use crate::reply::{read_reply, reply_tokens, ReplyKind};
use crate::sig::{SessionStyle, SigType};
use crate::text::{copy_bytes, push_bytes, push_text, text, text_vec};

verus! {

/// A session with the router: one control connection, the destination that
/// the session is bound to, in its full and its public form, and the style
/// that it was created with.
#[derive(Debug, PartialEq, Eq)]
pub struct Session {
    sam: SamConnection,
    local_full_dest: Vec<u8>,
    local_dest: Vec<u8>,
    style: SessionStyle,
    closed: bool,
}

/// The mathematical value of a `Session`.
pub struct SessionView {
    pub sam: SamConnectionView,
    /// The full destination, which holds the private keys and stays local.
    pub local_full_dest: Seq<u8>,
    /// The public destination, which peers may know.
    pub local_dest: Seq<u8>,
    pub style: SessionStyle,
    /// Whether `close` was called.
    pub closed: bool,
}

impl View for Session {
    type V = SessionView;

    closed spec fn view(&self) -> SessionView {
        SessionView {
            sam: self.sam@,
            local_full_dest: self.local_full_dest@,
            local_dest: self.local_dest@,
            style: self.style,
            closed: self.closed,
        }
    }
}

/// The destination to ask for where the router is to make a new one.
pub open spec fn transient() -> Seq<u8> {
    text("TRANSIENT")
}

/// `SESSION CREATE` for a session of the given style under the given
/// nickname, bound to `destination`.
pub open spec fn session_create_text(
    style: SessionStyle,
    nickname: Seq<u8>,
    destination: Seq<u8>,
) -> Seq<u8> {
    text("SESSION CREATE STYLE=") + encode_utf8(style.wire_name()) + text(" ID=") + nickname
        + text(" DESTINATION=") + destination + text(" \n")
}

/// The full destination that the router's answer to `SESSION CREATE` gives.
/// `MalformedReply` where the answer reports success and holds no
/// `DESTINATION`.
pub open spec fn created_destination(reply: Seq<u8>) -> Result<Seq<u8>, SamErrorView> {
    match reply_tokens(ReplyKind::SessionStatus, reply) {
        Err(e) => Err(e),
        Ok(tokens) => match lookup(tokens, text("DESTINATION")) {
            Some(d) => Ok(d),
            None => Err(SamErrorView::malformed()),
        },
    }
}

/// The error for datagram traffic on a session of stream style.
pub open spec fn wrong_style() -> SamErrorView {
    SamErrorView {
        kind: SamErrorKind::InvalidInput,
        result: Seq::empty(),
        message: text("session style carries no datagrams"),
    }
}

/// How far the setup of a session has come: which answer is awaited, and
/// what is known so far.
#[derive(Debug, PartialEq, Eq)]
pub enum SessionSetup {
    /// The handshake is out.
    Hello {
        destination: Vec<u8>,
        nickname: Vec<u8>,
        style: SessionStyle,
        min_version: Vec<u8>,
        max_version: Vec<u8>,
    },
    /// `SESSION CREATE` is out.
    Status { sam: SamConnection, style: SessionStyle },
    /// The lookup of `ME` is out.
    Public { sam: SamConnection, style: SessionStyle, local_full_dest: Vec<u8> },
}

/// The mathematical value of a `SessionSetup`.
pub enum SessionSetupView {
    Hello {
        destination: Seq<u8>,
        nickname: Seq<u8>,
        style: SessionStyle,
        min_version: Seq<u8>,
        max_version: Seq<u8>,
    },
    Status { sam: SamConnectionView, style: SessionStyle },
    Public { sam: SamConnectionView, style: SessionStyle, local_full_dest: Seq<u8> },
}

impl View for SessionSetup {
    type V = SessionSetupView;

    open spec fn view(&self) -> SessionSetupView {
        match self {
            SessionSetup::Hello { destination, nickname, style, min_version, max_version } => {
                SessionSetupView::Hello {
                    destination: destination@,
                    nickname: nickname@,
                    style: *style,
                    min_version: min_version@,
                    max_version: max_version@,
                }
            },
            SessionSetup::Status { sam, style } => SessionSetupView::Status {
                sam: sam@,
                style: *style,
            },
            SessionSetup::Public { sam, style, local_full_dest } => SessionSetupView::Public {
                sam: sam@,
                style: *style,
                local_full_dest: local_full_dest@,
            },
        }
    }
}

/// What one step of the setup gives.
#[derive(Debug, PartialEq, Eq)]
pub enum SetupStep {
    /// Write `command`, read one line and hand it to `setup`.
    Send { setup: SessionSetup, command: Vec<u8> },
    /// The session stands.
    Ready(Session),
    /// The setup has failed; the connection is of no further use.
    Failed(SamError),
}

/// The mathematical value of a `SetupStep`.
pub enum SetupStepView {
    Send { setup: SessionSetupView, command: Seq<u8> },
    Ready(SessionView),
    Failed(SamErrorView),
}

impl View for SetupStep {
    type V = SetupStepView;

    open spec fn view(&self) -> SetupStepView {
        match self {
            SetupStep::Send { setup, command } => SetupStepView::Send {
                setup: setup@,
                command: command@,
            },
            SetupStep::Ready(session) => SetupStepView::Ready(session@),
            SetupStep::Failed(e) => SetupStepView::Failed(e@),
        }
    }
}

/// The step that the line `reply` brings about in the state `setup`.
///
/// The answer to the handshake gives the connection, and `SESSION CREATE`
/// follows.  The answer to that gives the full destination, and the lookup
/// of `ME` follows.  The answer to the lookup gives the public destination,
/// and the session stands.  An answer that is malformed or reports an error
/// ends the setup with that error.
pub open spec fn setup_step(setup: SessionSetupView, reply: Seq<u8>) -> SetupStepView {
    match setup {
        SessionSetupView::Hello { destination, nickname, style, min_version, max_version } => {
            match connected(min_version, max_version, reply) {
                Err(e) => SetupStepView::Failed(e),
                Ok(sam) => SetupStepView::Send {
                    setup: SessionSetupView::Status { sam, style },
                    command: session_create_text(style, nickname, destination),
                },
            }
        },
        SessionSetupView::Status { sam, style } => match created_destination(reply) {
            Err(e) => SetupStepView::Failed(e),
            Ok(d) => SetupStepView::Send {
                setup: SessionSetupView::Public { sam, style, local_full_dest: d },
                command: naming_lookup_text(text("ME")),
            },
        },
        SessionSetupView::Public { sam, style, local_full_dest } => match named_value(reply) {
            Err(e) => SetupStepView::Failed(e),
            Ok(v) => SetupStepView::Ready(
                SessionView { sam, local_full_dest, local_dest: v, style, closed: false },
            ),
        },
    }
}

/// A setup is over after three answers at the most: the step that the third
/// answer brings about asks for nothing more.
pub proof fn lemma_setup_ends(
    setup: SessionSetupView,
    first: Seq<u8>,
    second: Seq<u8>,
    third: Seq<u8>,
)
    ensures
        setup_step(setup, first) matches SetupStepView::Send { setup: after_first, .. }
            ==> setup_step(after_first, second) matches SetupStepView::Send {
            setup: after_second,
            ..
        } ==> !(setup_step(after_second, third) is Send),
{
}

impl SessionSetup {
    /// Takes the line that answers the command last handed out.
    pub fn step(self, reply: &[u8]) -> (r: SetupStep)
        ensures
            r@ == setup_step(self@, reply@),
    {
        match self {
            SessionSetup::Hello { destination, nickname, style, min_version, max_version } => {
                match SamConnection::connect(min_version.as_slice(), max_version.as_slice(), reply) {
                    Err(e) => SetupStep::Failed(e),
                    Ok(sam) => {
                        let command = Session::create_request(
                            destination.as_slice(),
                            nickname.as_slice(),
                            style,
                        );
                        SetupStep::Send { setup: SessionSetup::Status { sam, style }, command }
                    },
                }
            },
            SessionSetup::Status { sam, style } => {
                let tokens = match read_reply(ReplyKind::SessionStatus, reply) {
                    Ok(t) => t,
                    Err(e) => {
                        return SetupStep::Failed(e);
                    },
                };
                match find(&tokens, "DESTINATION") {
                    None => SetupStep::Failed(SamError::malformed()),
                    Some(d) => {
                        let local_full_dest = copy_bytes(d.as_slice());
                        let me = text_vec("ME");
                        let command = SamConnection::naming_lookup_request(me.as_slice());
                        SetupStep::Send {
                            setup: SessionSetup::Public { sam, style, local_full_dest },
                            command,
                        }
                    },
                }
            },
            SessionSetup::Public { sam, style, local_full_dest } => {
                match sam.naming_lookup(reply) {
                    Err(e) => SetupStep::Failed(e),
                    Ok(local_dest) => SetupStep::Ready(
                        Session { sam, local_full_dest, local_dest, style, closed: false },
                    ),
                }
            },
        }
    }
}

impl Session {
    /// The `SESSION CREATE` command.
    pub fn create_request(destination: &[u8], nickname: &[u8], style: SessionStyle) -> (command:
        Vec<u8>)
        ensures
            command@ == session_create_text(style, nickname@, destination@),
    {
        let mut out = text_vec("SESSION CREATE STYLE=");
        push_text(&mut out, style.string());
        push_text(&mut out, " ID=");
        push_bytes(&mut out, nickname);
        push_text(&mut out, " DESTINATION=");
        push_bytes(&mut out, destination);
        push_text(&mut out, " \n");
        out
    }

    /// Starts the setup of a session on a fresh connection: the state that
    /// awaits the answer to the handshake, and the handshake to write.
    /// `destination` is a full destination to bind the session to, or
    /// `TRANSIENT` to have the router make a new one.
    pub fn create(
        destination: &[u8],
        nickname: &[u8],
        style: SessionStyle,
        min_version: &[u8],
        max_version: &[u8],
    ) -> (r: (SessionSetup, Vec<u8>))
        ensures
            r.0@ == (SessionSetupView::Hello {
                destination: destination@,
                nickname: nickname@,
                style,
                min_version: min_version@,
                max_version: max_version@,
            }),
            r.1@ == crate::connection::hello_text(min_version@, max_version@),
    {
        let command = SamConnection::handshake(min_version, max_version);
        let setup = SessionSetup::Hello {
            destination: copy_bytes(destination),
            nickname: copy_bytes(nickname),
            style,
            min_version: copy_bytes(min_version),
            max_version: copy_bytes(max_version),
        };
        (setup, command)
    }

    /// The full destination of the session.
    pub fn local_full_dest(&self) -> (d: &Vec<u8>)
        ensures
            d@ == self@.local_full_dest,
    {
        &self.local_full_dest
    }

    /// The public destination of the session.
    pub fn local_dest(&self) -> (d: &Vec<u8>)
        ensures
            d@ == self@.local_dest,
    {
        &self.local_dest
    }

    pub fn style(&self) -> (s: SessionStyle)
        ensures
            s == self@.style,
    {
        self.style
    }

    /// The control connection of the session.
    pub fn sam(&self) -> (c: &SamConnection)
        ensures
            c@ == self@.sam,
    {
        &self.sam
    }

    pub fn is_closed(&self) -> (c: bool)
        ensures
            c == self@.closed,
    {
        self.closed
    }

    /// The command that asks the router for the destination of `name`.
    pub fn naming_lookup_request(name: &[u8]) -> (command: Vec<u8>)
        ensures
            command@ == naming_lookup_text(name@),
    {
        SamConnection::naming_lookup_request(name)
    }

    /// Reads the router's answer to a name lookup: the destination.
    pub fn naming_lookup(&self, reply: &[u8]) -> (r: Result<Vec<u8>, SamError>)
        ensures
            match r {
                Ok(v) => named_value(reply@) == Ok::<Seq<u8>, SamErrorView>(v@),
                Err(e) => named_value(reply@) == Err::<Seq<u8>, SamErrorView>(e@),
            },
    {
        self.sam.naming_lookup(reply)
    }

    /// A second handle with the state of this one.
    pub fn duplicate(&self) -> (r: Session)
        ensures
            r@ == self@,
    {
        Session {
            sam: self.sam.duplicate(),
            local_full_dest: copy_bytes(self.local_full_dest.as_slice()),
            local_dest: copy_bytes(self.local_dest.as_slice()),
            style: self.style,
            closed: self.closed,
        }
    }

    /// The command that asks the router for a fresh pair of keys.
    pub fn gen_request(sig_type: SigType) -> (command: Vec<u8>)
        ensures
            command@ == crate::connection::dest_generate_text(sig_type),
    {
        SamConnection::gen_request(sig_type)
    }

    /// Reads the router's answer to `DEST GENERATE`: the public and the
    /// private key.
    pub fn gen(&self, reply: &[u8]) -> (r: Result<(Vec<u8>, Vec<u8>), SamError>)
        ensures
            match r {
                Ok(keys) => generated_keys(reply@) == Ok::<(Seq<u8>, Seq<u8>), SamErrorView>(
                    (keys.0@, keys.1@),
                ),
                Err(e) => generated_keys(reply@) == Err::<(Seq<u8>, Seq<u8>), SamErrorView>(e@),
            },
    {
        self.sam.gen(reply)
    }

    /// What to write to send `msg` to `to`, if anything.  A session of
    /// stream style sends no datagrams.
    pub fn send_msg(&self, to: &[u8], msg: &[u8], ack: u8) -> (r: SendOutcome)
        ensures
            r@ == if self@.style == SessionStyle::Stream {
                SendOutcomeView::WrongStyle
            } else {
                send_outcome(to@, msg@, ack)
            },
    {
        if self.style.carries_datagrams() {
            self.sam.send_msg(to, msg, ack)
        } else {
            SendOutcome::WrongStyle
        }
    }

    /// Reads a datagram that the router delivered in three lines.  A
    /// session of stream style receives no datagrams.
    pub fn recv_msg(&self, header: &[u8], ack: &[u8], body: &[u8]) -> (r: Result<
        Datagram,
        SamError,
    >)
        ensures
            match r {
                Ok(d) => self@.style != SessionStyle::Stream && delivered(header@, ack@, body@)
                    == Ok::<DatagramView, SamErrorView>(d@),
                Err(e) => if self@.style == SessionStyle::Stream {
                    e@ == wrong_style()
                } else {
                    delivered(header@, ack@, body@) == Err::<DatagramView, SamErrorView>(e@)
                },
            },
    {
        if self.style.carries_datagrams() {
            self.sam.recv_msg(header, ack, body)
        } else {
            Err(
                SamError::new(
                    SamErrorKind::InvalidInput,
                    Vec::new(),
                    text_vec("session style carries no datagrams"),
                ),
            )
        }
    }

    /// Marks the session as closed and says whether the connection is now to
    /// be shut down: `true` at the first call and `false` at every later
    /// one, so that closing twice shuts down once.
    pub fn close(&mut self) -> (shutdown: bool)
        ensures
            shutdown == !old(self)@.closed,
            final(self)@ == (SessionView { closed: true, ..old(self)@ }),
    {
        let shutdown = !self.closed;
        self.closed = true;
        shutdown
    }
}

} // verus!
