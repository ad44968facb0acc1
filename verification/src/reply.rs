//! Reading a reply for what it says: which command it answers, and whether
//! the router reports success or one of its errors.
use vstd::prelude::*;
use vstd::string::*;
use crate::error::{SamError, SamErrorKind, SamErrorView};
use crate::parser::{find, lookup, parse_line, parse_reply, tokens_view, Token, TokenView};
use crate::text::{copy_bytes, is_text, lemma_text_injective, text};

verus! {

/// The replies that the router sends, by their command keyword.
#[derive(Debug, Clone, Copy, PartialEq, Eq, Structural)]
pub enum ReplyKind {
    /// `HELLO REPLY`, the answer to the handshake.
    Hello,
    /// `SESSION STATUS`, the answer to `SESSION CREATE`.
    SessionStatus,
    /// `STREAM STATUS`, the answer to `STREAM CONNECT`.
    StreamStatus,
    /// `NAMING REPLY`, the answer to `NAMING LOOKUP`.
    NamingReply,
    /// `DEST REPLY`, the answer to `DEST GENERATE`.
    DestReply,
    /// `DATAGRAM RECEIVED`, the header of a datagram that the router delivers.
    DatagramReceived,
}

impl ReplyKind {
    /// The first word of the keyword.
    pub open spec fn command(self) -> Seq<u8> {
        match self {
            ReplyKind::Hello => text("HELLO"),
            ReplyKind::SessionStatus => text("SESSION"),
            ReplyKind::StreamStatus => text("STREAM"),
            ReplyKind::NamingReply => text("NAMING"),
            ReplyKind::DestReply => text("DEST"),
            ReplyKind::DatagramReceived => text("DATAGRAM"),
        }
    }

    /// The second word of the keyword.
    pub open spec fn subcommand(self) -> Seq<u8> {
        match self {
            ReplyKind::Hello => text("REPLY"),
            ReplyKind::SessionStatus => text("STATUS"),
            ReplyKind::StreamStatus => text("STATUS"),
            ReplyKind::NamingReply => text("REPLY"),
            ReplyKind::DestReply => text("REPLY"),
            ReplyKind::DatagramReceived => text("RECEIVED"),
        }
    }

    pub fn command_name(&self) -> (name: &'static str)
        ensures
            text(name) == self.command(),
    {
        match *self {
            ReplyKind::Hello => "HELLO",
            ReplyKind::SessionStatus => "SESSION",
            ReplyKind::StreamStatus => "STREAM",
            ReplyKind::NamingReply => "NAMING",
            ReplyKind::DestReply => "DEST",
            ReplyKind::DatagramReceived => "DATAGRAM",
        }
    }

    pub fn subcommand_name(&self) -> (name: &'static str)
        ensures
            text(name) == self.subcommand(),
    {
        match *self {
            ReplyKind::Hello => "REPLY",
            ReplyKind::SessionStatus => "STATUS",
            ReplyKind::StreamStatus => "STATUS",
            ReplyKind::NamingReply => "REPLY",
            ReplyKind::DestReply => "REPLY",
            ReplyKind::DatagramReceived => "RECEIVED",
        }
    }
}

/// The kind of error that a result code stands for; `None` for `OK`.  A code
/// that the protocol does not define is `Unclassified`.
pub open spec fn kind_of_result(result: Seq<u8>) -> Option<SamErrorKind> {
    if result == text("OK") {
        None
    } else if result == text("CANT_REACH_PEER") || result == text("KEY_NOT_FOUND") || result
        == text("PEER_NOT_FOUND") {
        Some(SamErrorKind::NotFound)
    } else if result == text("DUPLICATED_DEST") {
        Some(SamErrorKind::AddressInUse)
    } else if result == text("INVALID_KEY") || result == text("INVALID_ID") {
        Some(SamErrorKind::InvalidInput)
    } else if result == text("TIMEOUT") {
        Some(SamErrorKind::TimedOut)
    } else if result == text("I2P_ERROR") {
        Some(SamErrorKind::RouterError)
    } else {
        Some(SamErrorKind::Unclassified)
    }
}

/// The result code of a reply: the value of `RESULT`, and `OK` where the
/// reply holds none.
pub open spec fn result_of(tokens: Seq<TokenView>) -> Seq<u8> {
    match lookup(tokens, text("RESULT")) {
        Some(r) => r,
        None => text("OK"),
    }
}

/// The message of a reply: the value of `MESSAGE`, and empty where the reply
/// holds none.
pub open spec fn message_of(tokens: Seq<TokenView>) -> Seq<u8> {
    match lookup(tokens, text("MESSAGE")) {
        Some(m) => m,
        None => Seq::empty(),
    }
}

/// The error that a reply reports, with the result code and the message as
/// the router sent them; `None` where it reports success.
pub open spec fn error_of(tokens: Seq<TokenView>) -> Option<SamErrorView> {
    match kind_of_result(result_of(tokens)) {
        None => None,
        Some(kind) => Some(
            SamErrorView { kind, result: result_of(tokens), message: message_of(tokens) },
        ),
    }
}

fn result_kind(result: &[u8]) -> (kind: Option<SamErrorKind>)
    ensures
        kind == kind_of_result(result@),
{
    if is_text(result, "OK") {
        None
    } else if is_text(result, "CANT_REACH_PEER") || is_text(result, "KEY_NOT_FOUND") || is_text(
        result,
        "PEER_NOT_FOUND",
    ) {
        Some(SamErrorKind::NotFound)
    } else if is_text(result, "DUPLICATED_DEST") {
        Some(SamErrorKind::AddressInUse)
    } else if is_text(result, "INVALID_KEY") || is_text(result, "INVALID_ID") {
        Some(SamErrorKind::InvalidInput)
    } else if is_text(result, "TIMEOUT") {
        Some(SamErrorKind::TimedOut)
    } else if is_text(result, "I2P_ERROR") {
        Some(SamErrorKind::RouterError)
    } else {
        Some(SamErrorKind::Unclassified)
    }
}

/// Hands the tokens of a reply on where the reply reports success, and
/// gives the error that it reports where it does not.
pub fn verify_response(tokens: Vec<Token>) -> (r: Result<Vec<Token>, SamError>)
    ensures
        match r {
            Ok(t) => error_of(tokens_view(tokens@)) is None && t == tokens,
            Err(e) => error_of(tokens_view(tokens@)) == Some(e@),
        },
{
    let kind = match find(&tokens, "RESULT") {
        Some(r) => result_kind(r.as_slice()),
        None => {
            None
        },
    };
    match kind {
        None => Ok(tokens),
        Some(kind) => {
            let result = match find(&tokens, "RESULT") {
                Some(r) => copy_bytes(r.as_slice()),
                None => Vec::new(),
            };
            let message = match find(&tokens, "MESSAGE") {
                Some(m) => copy_bytes(m.as_slice()),
                None => Vec::new(),
            };
            Err(SamError::new(kind, result, message))
        },
    }
}

/// As `verify_response`, for the tokens of a delivered datagram.
pub fn verify_received(tokens: Vec<Token>) -> (r: Result<Vec<Token>, SamError>)
    ensures
        match r {
            Ok(t) => error_of(tokens_view(tokens@)) is None && t == tokens,
            Err(e) => error_of(tokens_view(tokens@)) == Some(e@),
        },
{
    verify_response(tokens)
}

/// What a line says as a reply of the kind expected: its tokens where it
/// reports success, the error that it reports, or `MalformedReply` where it
/// is no protocol text or carries another keyword.
pub open spec fn reply_tokens(kind: ReplyKind, line: Seq<u8>) -> Result<
    Seq<TokenView>,
    SamErrorView,
> {
    match parse_line(line) {
        None => Err(SamErrorView::malformed()),
        Some(r) => if r.command != kind.command() || r.subcommand != kind.subcommand() {
            Err(SamErrorView::malformed())
        } else {
            match error_of(r.tokens) {
                Some(e) => Err(e),
                None => Ok(r.tokens),
            }
        },
    }
}

/// Parses a line as a reply of the kind expected and classifies it.
pub fn read_reply(kind: ReplyKind, line: &[u8]) -> (r: Result<Vec<Token>, SamError>)
    ensures
        match r {
            Ok(t) => reply_tokens(kind, line@) == Ok::<Seq<TokenView>, SamErrorView>(
                tokens_view(t@),
            ),
            Err(e) => reply_tokens(kind, line@) == Err::<Seq<TokenView>, SamErrorView>(e@),
        },
{
    match parse_reply(line) {
        Err(e) => Err(e),
        Ok(reply) => {
            if !is_text(reply.command.as_slice(), kind.command_name()) || !is_text(
                reply.subcommand.as_slice(),
                kind.subcommand_name(),
            ) {
                Err(SamError::malformed())
            } else {
                verify_response(reply.tokens)
            }
        },
    }
}

/// The result codes of the protocol are pairwise different texts.
proof fn lemma_result_codes_differ()
    ensures
        text("OK") != text("CANT_REACH_PEER"),
        text("OK") != text("KEY_NOT_FOUND"),
        text("OK") != text("PEER_NOT_FOUND"),
        text("OK") != text("DUPLICATED_DEST"),
        text("OK") != text("INVALID_KEY"),
        text("OK") != text("INVALID_ID"),
        text("OK") != text("TIMEOUT"),
        text("OK") != text("I2P_ERROR"),
        text("DUPLICATED_DEST") != text("CANT_REACH_PEER"),
        text("DUPLICATED_DEST") != text("KEY_NOT_FOUND"),
        text("DUPLICATED_DEST") != text("PEER_NOT_FOUND"),
        text("INVALID_KEY") != text("CANT_REACH_PEER"),
        text("INVALID_KEY") != text("KEY_NOT_FOUND"),
        text("INVALID_KEY") != text("PEER_NOT_FOUND"),
        text("INVALID_KEY") != text("DUPLICATED_DEST"),
        text("INVALID_ID") != text("CANT_REACH_PEER"),
        text("INVALID_ID") != text("KEY_NOT_FOUND"),
        text("INVALID_ID") != text("PEER_NOT_FOUND"),
        text("INVALID_ID") != text("DUPLICATED_DEST"),
        text("TIMEOUT") != text("CANT_REACH_PEER"),
        text("TIMEOUT") != text("KEY_NOT_FOUND"),
        text("TIMEOUT") != text("PEER_NOT_FOUND"),
        text("TIMEOUT") != text("DUPLICATED_DEST"),
        text("TIMEOUT") != text("INVALID_KEY"),
        text("TIMEOUT") != text("INVALID_ID"),
        text("I2P_ERROR") != text("CANT_REACH_PEER"),
        text("I2P_ERROR") != text("KEY_NOT_FOUND"),
        text("I2P_ERROR") != text("PEER_NOT_FOUND"),
        text("I2P_ERROR") != text("DUPLICATED_DEST"),
        text("I2P_ERROR") != text("INVALID_KEY"),
        text("I2P_ERROR") != text("INVALID_ID"),
        text("I2P_ERROR") != text("TIMEOUT"),
{
    reveal_strlit("OK");
    reveal_strlit("CANT_REACH_PEER");
    reveal_strlit("KEY_NOT_FOUND");
    reveal_strlit("PEER_NOT_FOUND");
    reveal_strlit("DUPLICATED_DEST");
    reveal_strlit("INVALID_KEY");
    reveal_strlit("INVALID_ID");
    reveal_strlit("TIMEOUT");
    reveal_strlit("I2P_ERROR");
    lemma_text_injective("OK", "CANT_REACH_PEER");
    lemma_text_injective("OK", "KEY_NOT_FOUND");
    lemma_text_injective("OK", "PEER_NOT_FOUND");
    lemma_text_injective("OK", "DUPLICATED_DEST");
    lemma_text_injective("OK", "INVALID_KEY");
    lemma_text_injective("OK", "INVALID_ID");
    lemma_text_injective("OK", "TIMEOUT");
    lemma_text_injective("OK", "I2P_ERROR");
    lemma_text_injective("DUPLICATED_DEST", "CANT_REACH_PEER");
    lemma_text_injective("DUPLICATED_DEST", "KEY_NOT_FOUND");
    lemma_text_injective("DUPLICATED_DEST", "PEER_NOT_FOUND");
    lemma_text_injective("INVALID_KEY", "CANT_REACH_PEER");
    lemma_text_injective("INVALID_KEY", "KEY_NOT_FOUND");
    lemma_text_injective("INVALID_KEY", "PEER_NOT_FOUND");
    lemma_text_injective("INVALID_KEY", "DUPLICATED_DEST");
    lemma_text_injective("INVALID_ID", "CANT_REACH_PEER");
    lemma_text_injective("INVALID_ID", "KEY_NOT_FOUND");
    lemma_text_injective("INVALID_ID", "PEER_NOT_FOUND");
    lemma_text_injective("INVALID_ID", "DUPLICATED_DEST");
    lemma_text_injective("TIMEOUT", "CANT_REACH_PEER");
    lemma_text_injective("TIMEOUT", "KEY_NOT_FOUND");
    lemma_text_injective("TIMEOUT", "PEER_NOT_FOUND");
    lemma_text_injective("TIMEOUT", "DUPLICATED_DEST");
    lemma_text_injective("TIMEOUT", "INVALID_KEY");
    lemma_text_injective("TIMEOUT", "INVALID_ID");
    lemma_text_injective("I2P_ERROR", "CANT_REACH_PEER");
    lemma_text_injective("I2P_ERROR", "KEY_NOT_FOUND");
    lemma_text_injective("I2P_ERROR", "PEER_NOT_FOUND");
    lemma_text_injective("I2P_ERROR", "DUPLICATED_DEST");
    lemma_text_injective("I2P_ERROR", "INVALID_KEY");
    lemma_text_injective("I2P_ERROR", "INVALID_ID");
    lemma_text_injective("I2P_ERROR", "TIMEOUT");
}

/// Each result code of the protocol stands for the kind of error that the
/// protocol gives it, and `OK` for none.
pub proof fn lemma_result_kinds()
    ensures
        kind_of_result(text("OK")) is None,
        kind_of_result(text("CANT_REACH_PEER")) == Some(SamErrorKind::NotFound),
        kind_of_result(text("KEY_NOT_FOUND")) == Some(SamErrorKind::NotFound),
        kind_of_result(text("PEER_NOT_FOUND")) == Some(SamErrorKind::NotFound),
        kind_of_result(text("DUPLICATED_DEST")) == Some(SamErrorKind::AddressInUse),
        kind_of_result(text("INVALID_KEY")) == Some(SamErrorKind::InvalidInput),
        kind_of_result(text("INVALID_ID")) == Some(SamErrorKind::InvalidInput),
        kind_of_result(text("TIMEOUT")) == Some(SamErrorKind::TimedOut),
        kind_of_result(text("I2P_ERROR")) == Some(SamErrorKind::RouterError),
{
    lemma_result_codes_differ();
}

/// A reply without `RESULT`, or with `RESULT=OK`, reports no error, whatever
/// else it holds.  A reply with any other result code reports an error of
/// the kind that the code stands for, which carries the code and the
/// reply's message, empty or not.
pub proof fn lemma_classification(tokens: Seq<TokenView>)
    ensures
        lookup(tokens, text("RESULT")) is None ==> error_of(tokens) is None,
        lookup(tokens, text("RESULT")) == Some(text("OK")) ==> error_of(tokens) is None,
        result_of(tokens) != text("OK") ==> error_of(tokens) == Some(
            SamErrorView {
                kind: kind_of_result(result_of(tokens)).unwrap(),
                result: result_of(tokens),
                message: message_of(tokens),
            },
        ),
{
}

} // verus!
