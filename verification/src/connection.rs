//! The control connection: the commands that go to the router over one
//! connection and what its replies mean.
//!
//! A `SamConnection` is the protocol's side of a connection after the
//! handshake.  It builds command lines and reads reply lines; the caller
//! writes the one to its socket and reads the other from it, one command and
//! one reply at a time.
use vstd::prelude::*;
use vstd::string::*;
use vstd::utf8::encode_utf8;
use crate::datagram::{
    decode_datagram, delivered, encode_datagram, send_outcome, Datagram, DatagramView,
    SendOutcome,
};
use crate::error::{SamError, SamErrorKind, SamErrorView};
use crate::parser::{find, lookup, parse_line, parse_reply};
use crate::reply::{
    error_of, message_of, read_reply, reply_tokens, result_of, verify_response, ReplyKind,
};
use crate::sig::SigType;
use crate::text::{copy_bytes, is_text, push_bytes, push_text, text, text_vec};

verus! {

/// One control connection after the handshake.
#[derive(Debug, PartialEq, Eq)]
pub struct SamConnection {
    last_send_id: u8,
    last_receive_id: u8,
    min_version: Vec<u8>,
    max_version: Vec<u8>,
    current_version: Vec<u8>,
}

/// The mathematical value of a `SamConnection`.
pub struct SamConnectionView {
    pub last_send_id: u8,
    pub last_receive_id: u8,
    /// The lowest protocol version that was offered.
    pub min_version: Seq<u8>,
    /// The highest protocol version that was offered.
    pub max_version: Seq<u8>,
    /// The protocol version that the router chose.
    pub current_version: Seq<u8>,
}

impl View for SamConnection {
    type V = SamConnectionView;

    closed spec fn view(&self) -> SamConnectionView {
        SamConnectionView {
            last_send_id: self.last_send_id,
            last_receive_id: self.last_receive_id,
            min_version: self.min_version@,
            max_version: self.max_version@,
            current_version: self.current_version@,
        }
    }
}

/// The handshake: `HELLO VERSION` with the range of versions offered.
pub open spec fn hello_text(min_version: Seq<u8>, max_version: Seq<u8>) -> Seq<u8> {
    text("HELLO VERSION MIN=") + min_version + text(" MAX=") + max_version + text(" \n")
}

/// `NAMING LOOKUP` for `name`.
pub open spec fn naming_lookup_text(name: Seq<u8>) -> Seq<u8> {
    text("NAMING LOOKUP NAME=") + name + text(" \n")
}

/// `DEST GENERATE` for keys of the given signature type.
pub open spec fn dest_generate_text(sig_type: SigType) -> Seq<u8> {
    text("DEST GENERATE SIGNATURE_TYPE=") + encode_utf8(sig_type.wire_name()) + text(" \n")
}

/// The connection that the router's answer to the handshake gives.
///
/// `MalformedReply` where the answer is no `HELLO REPLY` line.  `NoVersion`
/// where the router accepts none of the versions offered, and
/// `ConnectionRefused` where it reports a failure of its own; both carry the
/// router's result code and message.  Any other result but `OK` is the error
/// that it stands for.  On success the answer must name the version chosen:
/// without `VERSION` it is malformed, and with an empty one the version is
/// 3.0.
pub open spec fn connected(min_version: Seq<u8>, max_version: Seq<u8>, reply: Seq<u8>) -> Result<
    SamConnectionView,
    SamErrorView,
> {
    match parse_line(reply) {
        None => Err(SamErrorView::malformed()),
        Some(r) => if r.command != ReplyKind::Hello.command() || r.subcommand
            != ReplyKind::Hello.subcommand() {
            Err(SamErrorView::malformed())
        } else if result_of(r.tokens) == text("NOVERSION") {
            Err(
                SamErrorView {
                    kind: SamErrorKind::NoVersion,
                    result: result_of(r.tokens),
                    message: message_of(r.tokens),
                },
            )
        } else if result_of(r.tokens) == text("I2P_ERROR") {
            Err(
                SamErrorView {
                    kind: SamErrorKind::ConnectionRefused,
                    result: result_of(r.tokens),
                    message: message_of(r.tokens),
                },
            )
        } else {
            match error_of(r.tokens) {
                Some(e) => Err(e),
                None => match lookup(r.tokens, text("VERSION")) {
                    None => Err(SamErrorView::malformed()),
                    Some(v) => Ok(
                        SamConnectionView {
                            last_send_id: 0,
                            last_receive_id: 0,
                            min_version,
                            max_version,
                            current_version: if v.len() == 0 {
                                text("3.0")
                            } else {
                                v
                            },
                        },
                    ),
                },
            }
        },
    }
}

/// The value that the router's answer to a name lookup gives.
/// `MalformedReply` where the answer reports success and holds no `VALUE`.
pub open spec fn named_value(reply: Seq<u8>) -> Result<Seq<u8>, SamErrorView> {
    match reply_tokens(ReplyKind::NamingReply, reply) {
        Err(e) => Err(e),
        Ok(tokens) => match lookup(tokens, text("VALUE")) {
            Some(v) => Ok(v),
            None => Err(SamErrorView::malformed()),
        },
    }
}

/// The public and the private key that the router's answer to
/// `DEST GENERATE` gives.  `MalformedReply` where the answer reports success
/// and lacks `PUB` or `PRIV`.
pub open spec fn generated_keys(reply: Seq<u8>) -> Result<(Seq<u8>, Seq<u8>), SamErrorView> {
    match reply_tokens(ReplyKind::DestReply, reply) {
        Err(e) => Err(e),
        Ok(tokens) => match (lookup(tokens, text("PUB")), lookup(tokens, text("PRIV"))) {
            (Some(public), Some(private)) => Ok((public, private)),
            _ => Err(SamErrorView::malformed()),
        },
    }
}

impl SamConnection {
    /// The handshake to write on a fresh connection.
    pub fn handshake(min_version: &[u8], max_version: &[u8]) -> (command: Vec<u8>)
        ensures
            command@ == hello_text(min_version@, max_version@),
    {
        let mut out = text_vec("HELLO VERSION MIN=");
        push_bytes(&mut out, min_version);
        push_text(&mut out, " MAX=");
        push_bytes(&mut out, max_version);
        push_text(&mut out, " \n");
        out
    }

    /// Reads the router's answer to the handshake that offered
    /// `min_version` to `max_version`.
    pub fn connect(min_version: &[u8], max_version: &[u8], reply: &[u8]) -> (r: Result<
        SamConnection,
        SamError,
    >)
        ensures
            match r {
                Ok(c) => connected(min_version@, max_version@, reply@) == Ok::<
                    SamConnectionView,
                    SamErrorView,
                >(c@),
                Err(e) => connected(min_version@, max_version@, reply@) == Err::<
                    SamConnectionView,
                    SamErrorView,
                >(e@),
            },
    {
        let parsed = match parse_reply(reply) {
            Ok(p) => p,
            Err(e) => {
                return Err(e);
            },
        };
        let kind = ReplyKind::Hello;
        if !is_text(parsed.command.as_slice(), kind.command_name()) || !is_text(
            parsed.subcommand.as_slice(),
            kind.subcommand_name(),
        ) {
            return Err(SamError::malformed());
        }
        let refusal = match find(&parsed.tokens, "RESULT") {
            Some(r) => if is_text(r.as_slice(), "NOVERSION") {
                Some(SamErrorKind::NoVersion)
            } else if is_text(r.as_slice(), "I2P_ERROR") {
                Some(SamErrorKind::ConnectionRefused)
            } else {
                None
            },
            None => {
                proof {
                    lemma_ok_is_no_refusal();
                }
                None
            },
        };
        match refusal {
            Some(kind) => {
                let result = match find(&parsed.tokens, "RESULT") {
                    Some(r) => copy_bytes(r.as_slice()),
                    None => Vec::new(),
                };
                let message = match find(&parsed.tokens, "MESSAGE") {
                    Some(m) => copy_bytes(m.as_slice()),
                    None => Vec::new(),
                };
                Err(SamError::new(kind, result, message))
            },
            None => {
                let tokens = match verify_response(parsed.tokens) {
                    Ok(t) => t,
                    Err(e) => {
                        return Err(e);
                    },
                };
                let current_version = match find(&tokens, "VERSION") {
                    None => {
                        return Err(SamError::malformed());
                    },
                    Some(v) => if v.len() == 0 {
                        text_vec("3.0")
                    } else {
                        copy_bytes(v.as_slice())
                    },
                };
                Ok(
                    SamConnection {
                        last_send_id: 0,
                        last_receive_id: 0,
                        min_version: copy_bytes(min_version),
                        max_version: copy_bytes(max_version),
                        current_version,
                    },
                )
            },
        }
    }

    /// The protocol version that the router chose.
    pub fn current_version(&self) -> (v: &Vec<u8>)
        ensures
            v@ == self@.current_version,
    {
        &self.current_version
    }

    /// The lowest protocol version that was offered.
    pub fn min_version(&self) -> (v: &Vec<u8>)
        ensures
            v@ == self@.min_version,
    {
        &self.min_version
    }

    /// The highest protocol version that was offered.
    pub fn max_version(&self) -> (v: &Vec<u8>)
        ensures
            v@ == self@.max_version,
    {
        &self.max_version
    }

    /// The command that asks the router for the destination of `name`.
    pub fn naming_lookup_request(name: &[u8]) -> (command: Vec<u8>)
        ensures
            command@ == naming_lookup_text(name@),
    {
        let mut out = text_vec("NAMING LOOKUP NAME=");
        push_bytes(&mut out, name);
        push_text(&mut out, " \n");
        out
    }

    /// Reads the router's answer to a name lookup: the destination.
    pub fn naming_lookup(&self, reply: &[u8]) -> (r: Result<Vec<u8>, SamError>)
        ensures
            match r {
                Ok(v) => named_value(reply@) == Ok::<Seq<u8>, SamErrorView>(v@),
                Err(e) => named_value(reply@) == Err::<Seq<u8>, SamErrorView>(e@),
            },
    {
        let tokens = match read_reply(ReplyKind::NamingReply, reply) {
            Ok(t) => t,
            Err(e) => {
                return Err(e);
            },
        };
        match find(&tokens, "VALUE") {
            Some(v) => Ok(copy_bytes(v.as_slice())),
            None => Err(SamError::malformed()),
        }
    }

    /// The command that asks the router for a fresh pair of keys.
    pub fn gen_request(sig_type: SigType) -> (command: Vec<u8>)
        ensures
            command@ == dest_generate_text(sig_type),
    {
        let mut out = text_vec("DEST GENERATE SIGNATURE_TYPE=");
        push_text(&mut out, sig_type.as_string());
        push_text(&mut out, " \n");
        out
    }

    /// Reads the router's answer to `DEST GENERATE`: the public and the
    /// private key.
    pub fn gen(&self, reply: &[u8]) -> (r: Result<(Vec<u8>, Vec<u8>), SamError>)
        ensures
            match r {
                Ok(keys) => generated_keys(reply@) == Ok::<(Seq<u8>, Seq<u8>), SamErrorView>(
                    (keys.0@, keys.1@),
                ),
                Err(e) => generated_keys(reply@) == Err::<(Seq<u8>, Seq<u8>), SamErrorView>(e@),
            },
    {
        let tokens = match read_reply(ReplyKind::DestReply, reply) {
            Ok(t) => t,
            Err(e) => {
                return Err(e);
            },
        };
        let public = match find(&tokens, "PUB") {
            Some(v) => copy_bytes(v.as_slice()),
            None => {
                return Err(SamError::malformed());
            },
        };
        let private = match find(&tokens, "PRIV") {
            Some(v) => copy_bytes(v.as_slice()),
            None => {
                return Err(SamError::malformed());
            },
        };
        Ok((public, private))
    }

    /// A second handle with the state of this one.  It stands for the same
    /// connection after the same handshake: none is due on it.
    pub fn duplicate(&self) -> (r: SamConnection)
        ensures
            r@ == self@,
    {
        SamConnection {
            last_send_id: self.last_send_id,
            last_receive_id: self.last_receive_id,
            min_version: copy_bytes(self.min_version.as_slice()),
            max_version: copy_bytes(self.max_version.as_slice()),
            current_version: copy_bytes(self.current_version.as_slice()),
        }
    }

    /// What to write to send `msg` to `to`, if anything.  No reply follows.
    pub fn send_msg(&self, to: &[u8], msg: &[u8], ack: u8) -> (r: SendOutcome)
        ensures
            r@ == send_outcome(to@, msg@, ack),
    {
        encode_datagram(to, msg, ack)
    }

    /// Reads a datagram that the router delivered in three lines.
    pub fn recv_msg(&self, header: &[u8], ack: &[u8], body: &[u8]) -> (r: Result<
        Datagram,
        SamError,
    >)
        ensures
            match r {
                Ok(d) => delivered(header@, ack@, body@) == Ok::<DatagramView, SamErrorView>(d@),
                Err(e) => delivered(header@, ack@, body@) == Err::<DatagramView, SamErrorView>(e@),
            },
    {
        decode_datagram(header, ack, body)
    }
}

/// `OK` is neither of the results that refuse a handshake.
proof fn lemma_ok_is_no_refusal()
    ensures
        text("OK") != text("NOVERSION"),
        text("OK") != text("I2P_ERROR"),
{
    reveal_strlit("OK");
    reveal_strlit("NOVERSION");
    reveal_strlit("I2P_ERROR");
    crate::text::lemma_text_injective("OK", "NOVERSION");
    crate::text::lemma_text_injective("OK", "I2P_ERROR");
}

} // verus!
