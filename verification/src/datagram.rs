//! Datagram framing: what is written to send a datagram, with the limits on
//! its size, and how a delivered datagram is read.
//!
//! The payload travels as base64 text.  A datagram is sent as a command line
//! that names the destination and the size of the encoded payload, a line
//! that holds the acknowledgement mode, and the encoded payload.  It is
//! delivered as a header line, a line with the acknowledgement mode and a
//! line with the encoded payload.
use vstd::prelude::*;
use vstd::slice::slice_subrange;
use crate::error::{SamError, SamErrorView};
use crate::parser::{find, lookup, parse_line, parse_reply, tokens_view, Token, TokenView};
use crate::reply::{error_of, verify_received, ReplyKind};
use crate::text::{
    copy_bytes, decimal, decimal_value, format_decimal, is_text, parse_decimal, push_bytes,
    push_text, text, text_vec, trim, trimmed, NEWLINE,
};

verus! {

/// A frame longer than this is sent, with a warning to the caller.
pub const SOFT_LIMIT: usize = 31_500;

/// A frame longer than this is not sent: no tunnel carries it.
pub const HARD_LIMIT: usize = 61_500;

/// How the receiver of a datagram is asked to acknowledge it.
#[derive(Debug, Clone, Copy, PartialEq, Eq, Structural)]
pub enum AckMode {
    /// Mode 0: no acknowledgement is asked for.
    NoAck,
    /// Mode 1: an acknowledgement is asked for, and the sender does not wait
    /// for it.
    AckNoWait,
    /// Mode 2: an acknowledgement is asked for, and the sender sends again
    /// when none arrives in time.
    AckAndWait,
}

impl AckMode {
    /// The number of the mode on the wire.
    pub fn code(&self) -> (c: u8)
        ensures
            c == match *self {
                AckMode::NoAck => 0u8,
                AckMode::AckNoWait => 1u8,
                AckMode::AckAndWait => 2u8,
            },
    {
        match *self {
            AckMode::NoAck => 0,
            AckMode::AckNoWait => 1,
            AckMode::AckAndWait => 2,
        }
    }
}

/// The standard base64 text, with padding, of `input`.
pub uninterp spec fn base64_encoded(input: Seq<u8>) -> Seq<u8>;

/// The bytes that `input` is the standard base64 text of; `None` where it is
/// the base64 text of nothing.
pub uninterp spec fn base64_decoded(input: Seq<u8>) -> Option<Seq<u8>>;

/// `base64::DecodeError`, the crate's reason why a text did not decode.  It
/// is handed on unread.
#[verifier::external_type_specification]
#[verifier::external_body]
pub struct ExDecodeError(base64::DecodeError);

/// `base64::encode`: the standard base64 text of `input`, with padding, as
/// bytes.  The text is a function of the input alone.  The call is left out
/// where the length of the text, four bytes for every three of the input
/// or part of three, does not fit in `usize`: there the crate panics.
#[verifier::external_body]
fn base64_encode(input: &[u8]) -> (r: Vec<u8>)
    requires
        (input@.len() + 2) / 3 * 4 <= usize::MAX,
    ensures
        r@ == base64_encoded(input@),
{
    base64::encode(input).into_bytes()
}

/// `base64::decode`: the bytes that `input` is the standard base64 text of,
/// or the crate's error where it is not such a text.  Which of the two, and
/// which bytes, depends on the input alone.  The call is left out where the
/// input is within seven bytes of the largest length: there the crate's
/// estimate of the output overflows and it panics.
#[verifier::external_body]
fn base64_decode(input: &[u8]) -> (r: Result<Vec<u8>, base64::DecodeError>)
    requires
        input@.len() + 7 <= usize::MAX,
    ensures
        match r {
            Ok(v) => base64_decoded(input@) == Some(v@),
            Err(_) => base64_decoded(input@) is None,
        },
{
    base64::decode(input)
}

/// What happens to a datagram that is handed over for sending.
#[derive(Debug, Clone, PartialEq, Eq)]
pub enum SendOutcome {
    /// The frame to write.  `warn` says that it is longer than the soft
    /// limit.
    Send { frame: Vec<u8>, warn: bool },
    /// The frame would be longer than the hard limit: nothing is to be
    /// written.
    TooLong,
    /// The session carries no datagrams: nothing is to be written.
    WrongStyle,
}

/// The mathematical value of a `SendOutcome`.
pub enum SendOutcomeView {
    Send { frame: Seq<u8>, warn: bool },
    TooLong,
    WrongStyle,
}

impl View for SendOutcome {
    type V = SendOutcomeView;

    open spec fn view(&self) -> SendOutcomeView {
        match self {
            SendOutcome::Send { frame, warn } => SendOutcomeView::Send {
                frame: frame@,
                warn: *warn,
            },
            SendOutcome::TooLong => SendOutcomeView::TooLong,
            SendOutcome::WrongStyle => SendOutcomeView::WrongStyle,
        }
    }
}

/// The frame that sends the encoded payload `encoded` to `to`: the command
/// line with destination and size, the line with the acknowledgement mode,
/// and the payload.
pub open spec fn datagram_frame(to: Seq<u8>, encoded: Seq<u8>, ack: u8) -> Seq<u8> {
    text("DATAGRAM SEND DESTINATION=") + to + text(" SIZE=") + decimal(encoded.len()) + text(
        " \n",
    ) + decimal(ack as nat) + seq![NEWLINE] + encoded
}

/// What happens to a frame: it is refused where it is longer than the hard
/// limit, and sent otherwise, with a warning where it is longer than the
/// soft limit.
pub open spec fn outcome_of(frame: Seq<u8>) -> SendOutcomeView {
    if frame.len() > HARD_LIMIT {
        SendOutcomeView::TooLong
    } else {
        SendOutcomeView::Send { frame, warn: frame.len() > SOFT_LIMIT }
    }
}

/// What happens to the datagram with payload `msg`.  A payload longer than
/// the hard limit is refused unseen: its base64 text is longer still.
pub open spec fn send_outcome(to: Seq<u8>, msg: Seq<u8>, ack: u8) -> SendOutcomeView {
    if msg.len() > HARD_LIMIT {
        SendOutcomeView::TooLong
    } else {
        outcome_of(datagram_frame(to, base64_encoded(msg), ack))
    }
}

/// Builds the frame for a payload that is already encoded, and decides by
/// its length what happens to it.
pub fn frame_datagram(to: &[u8], encoded: &[u8], ack: u8) -> (r: SendOutcome)
    ensures
        r@ == outcome_of(datagram_frame(to@, encoded@, ack)),
{
    let mut frame = text_vec("DATAGRAM SEND DESTINATION=");
    push_bytes(&mut frame, to);
    push_text(&mut frame, " SIZE=");
    let size = format_decimal(encoded.len());
    push_bytes(&mut frame, size.as_slice());
    push_text(&mut frame, " \n");
    let mode = format_decimal(ack as usize);
    push_bytes(&mut frame, mode.as_slice());
    frame.push(NEWLINE);
    push_bytes(&mut frame, encoded);
    assert(frame@ =~= datagram_frame(to@, encoded@, ack));
    if frame.len() > HARD_LIMIT {
        SendOutcome::TooLong
    } else {
        let warn = frame.len() > SOFT_LIMIT;
        SendOutcome::Send { frame, warn }
    }
}

/// Encodes the payload, builds the frame and decides what happens to it.
pub fn encode_datagram(to: &[u8], msg: &[u8], ack: u8) -> (r: SendOutcome)
    ensures
        r@ == send_outcome(to@, msg@, ack),
{
    if msg.len() > HARD_LIMIT {
        return SendOutcome::TooLong;
    }
    let encoded = base64_encode(msg);
    frame_datagram(to, encoded.as_slice(), ack)
}

/// A datagram as it is handed to the caller.
#[derive(Debug, Clone, PartialEq, Eq)]
pub struct Datagram {
    /// The destination that sent it.
    pub from: Vec<u8>,
    /// The payload, decoded.
    pub payload: Vec<u8>,
    /// The acknowledgement that the sender asks for.
    pub ack: AckMode,
    /// `false` where the sender named a mode that this client does not know
    /// and `ack` is `NoAck` for want of a better answer.
    pub ack_supported: bool,
}

/// The mathematical value of a `Datagram`.
pub struct DatagramView {
    pub from: Seq<u8>,
    pub payload: Seq<u8>,
    pub ack: AckMode,
    pub ack_supported: bool,
}

impl View for Datagram {
    type V = DatagramView;

    open spec fn view(&self) -> DatagramView {
        DatagramView {
            from: self.from@,
            payload: self.payload@,
            ack: self.ack,
            ack_supported: self.ack_supported,
        }
    }
}

/// The acknowledgement mode that a value names, and whether the value is
/// one that this client knows.  An empty value asks for nothing.  The
/// numbers 0, 1 and 2 name the three modes.  Anything else is not known and
/// counts as mode 0.
pub open spec fn ack_of(value: Seq<u8>) -> (AckMode, bool) {
    let v = trimmed(value);
    if v.len() == 0 {
        (AckMode::NoAck, true)
    } else {
        match decimal_value(v) {
            Some(n) => if n == 0 {
                (AckMode::NoAck, true)
            } else if n == 1 {
                (AckMode::AckNoWait, true)
            } else if n == 2 {
                (AckMode::AckAndWait, true)
            } else {
                (AckMode::NoAck, false)
            },
            None => (AckMode::NoAck, false),
        }
    }
}

/// Reads an acknowledgement mode.
pub fn read_ack(value: &[u8]) -> (r: (AckMode, bool))
    ensures
        r == ack_of(value@),
{
    let v = trim(value);
    if v.len() == 0 {
        (AckMode::NoAck, true)
    } else {
        match parse_decimal(v) {
            Some(n) => if n == 0 {
                (AckMode::NoAck, true)
            } else if n == 1 {
                (AckMode::AckNoWait, true)
            } else if n == 2 {
                (AckMode::AckAndWait, true)
            } else {
                (AckMode::NoAck, false)
            },
            None => (AckMode::NoAck, false),
        }
    }
}

/// The tokens of a delivered datagram: those of the header line, then the
/// line with the acknowledgement mode under the key `ACK` and the line with
/// the payload under the key `MSG`, each as it was read.  A line with the
/// acknowledgement mode that holds nothing but white space is left out, so
/// that an `ACK` token of the header stands; one that holds anything
/// overrides it.  An error where the header is no `DATAGRAM RECEIVED` line
/// or reports one.
pub open spec fn received_tokens(header: Seq<u8>, ack: Seq<u8>, body: Seq<u8>) -> Result<
    Seq<TokenView>,
    SamErrorView,
> {
    match parse_line(header) {
        None => Err(SamErrorView::malformed()),
        Some(r) => if r.command != ReplyKind::DatagramReceived.command() || r.subcommand
            != ReplyKind::DatagramReceived.subcommand() {
            Err(SamErrorView::malformed())
        } else {
            let with_ack = if trimmed(ack).len() > 0 {
                r.tokens.push(TokenView { key: text("ACK"), value: ack })
            } else {
                r.tokens
            };
            let tokens = with_ack.push(TokenView { key: text("MSG"), value: body });
            match error_of(tokens) {
                Some(e) => Err(e),
                None => Ok(tokens),
            }
        },
    }
}

/// Reads the three lines of a delivered datagram into tokens.
pub fn receive(header: &[u8], ack: &[u8], body: &[u8]) -> (r: Result<Vec<Token>, SamError>)
    ensures
        match r {
            Ok(t) => received_tokens(header@, ack@, body@) == Ok::<Seq<TokenView>, SamErrorView>(
                tokens_view(t@),
            ),
            Err(e) => received_tokens(header@, ack@, body@) == Err::<Seq<TokenView>, SamErrorView>(
                e@,
            ),
        },
{
    match parse_reply(header) {
        Err(e) => Err(e),
        Ok(reply) => {
            let kind = ReplyKind::DatagramReceived;
            if !is_text(reply.command.as_slice(), kind.command_name()) || !is_text(
                reply.subcommand.as_slice(),
                kind.subcommand_name(),
            ) {
                return Err(SamError::malformed());
            }
            let mut tokens = reply.tokens;
            let ghost head = tokens_view(tokens@);
            if trim(ack).len() > 0 {
                tokens.push(Token { key: text_vec("ACK"), value: copy_bytes(ack) });
                assert(tokens_view(tokens@) =~= head.push(
                    TokenView { key: text("ACK"), value: ack@ },
                ));
            }
            let ghost with_ack = tokens_view(tokens@);
            tokens.push(Token { key: text_vec("MSG"), value: copy_bytes(body) });
            assert(tokens_view(tokens@) =~= with_ack.push(
                TokenView { key: text("MSG"), value: body@ },
            ));
            verify_received(tokens)
        },
    }
}

/// The encoded payload of a delivered datagram: as many bytes of `MSG` as
/// `SIZE` says, whatever follows them.  `None` where either is missing,
/// `SIZE` is no number, or `MSG` is shorter than `SIZE` says.  A size within
/// seven bytes of the largest that the machine can express is refused too.
pub open spec fn encoded_payload(tokens: Seq<TokenView>) -> Option<Seq<u8>> {
    match (lookup(tokens, text("SIZE")), lookup(tokens, text("MSG"))) {
        (Some(size), Some(msg)) => match decimal_value(size) {
            Some(n) => if n <= msg.len() && n + 7 <= usize::MAX {
                Some(msg.take(n as int))
            } else {
                None
            },
            None => None,
        },
        _ => None,
    }
}

/// The datagram that the tokens and the decoded payload make up.
/// `MalformedReply` where the payload did not decode or the tokens name no
/// sender.
pub open spec fn assembled(tokens: Seq<TokenView>, decoded: Option<Seq<u8>>) -> Result<
    DatagramView,
    SamErrorView,
> {
    match (lookup(tokens, text("DESTINATION")), decoded) {
        (Some(from), Some(payload)) => {
            let ack = match lookup(tokens, text("ACK")) {
                Some(a) => ack_of(a),
                None => (AckMode::NoAck, true),
            };
            Ok(DatagramView { from, payload, ack: ack.0, ack_supported: ack.1 })
        },
        _ => Err(SamErrorView::malformed()),
    }
}

/// Puts a datagram together from its tokens and its decoded payload.
pub fn assemble(tokens: &Vec<Token>, decoded: Option<Vec<u8>>) -> (r: Result<Datagram, SamError>)
    ensures
        match r {
            Ok(d) => assembled(
                tokens_view(tokens@),
                match decoded {
                    Some(p) => Some(p@),
                    None => None,
                },
            ) == Ok::<DatagramView, SamErrorView>(d@),
            Err(e) => assembled(
                tokens_view(tokens@),
                match decoded {
                    Some(p) => Some(p@),
                    None => None,
                },
            ) == Err::<DatagramView, SamErrorView>(e@),
        },
{
    let from = match find(tokens, "DESTINATION") {
        Some(f) => copy_bytes(f.as_slice()),
        None => {
            return Err(SamError::malformed());
        },
    };
    let payload = match decoded {
        Some(p) => p,
        None => {
            return Err(SamError::malformed());
        },
    };
    let ack = match find(tokens, "ACK") {
        Some(a) => read_ack(a.as_slice()),
        None => (AckMode::NoAck, true),
    };
    Ok(Datagram { from, payload, ack: ack.0, ack_supported: ack.1 })
}

/// The datagram that three lines deliver.
pub open spec fn delivered(header: Seq<u8>, ack: Seq<u8>, body: Seq<u8>) -> Result<
    DatagramView,
    SamErrorView,
> {
    match received_tokens(header, ack, body) {
        Err(e) => Err(e),
        Ok(tokens) => match encoded_payload(tokens) {
            None => Err(SamErrorView::malformed()),
            Some(encoded) => assembled(tokens, base64_decoded(encoded)),
        },
    }
}

/// Reads a delivered datagram from its three lines.
pub fn decode_datagram(header: &[u8], ack: &[u8], body: &[u8]) -> (r: Result<Datagram, SamError>)
    ensures
        match r {
            Ok(d) => delivered(header@, ack@, body@) == Ok::<DatagramView, SamErrorView>(d@),
            Err(e) => delivered(header@, ack@, body@) == Err::<DatagramView, SamErrorView>(e@),
        },
{
    let tokens = match receive(header, ack, body) {
        Ok(t) => t,
        Err(e) => {
            return Err(e);
        },
    };
    let size = match find(&tokens, "SIZE") {
        Some(s) => parse_decimal(s.as_slice()),
        None => {
            return Err(SamError::malformed());
        },
    };
    let n = match size {
        Some(n) => n,
        None => {
            return Err(SamError::malformed());
        },
    };
    let decoded = match find(&tokens, "MSG") {
        Some(msg) => {
            if n > msg.len() || n > usize::MAX - 7 {
                return Err(SamError::malformed());
            }
            let encoded = slice_subrange(msg.as_slice(), 0, n);
            match base64_decode(encoded) {
                Ok(p) => Some(p),
                Err(_) => None,
            }
        },
        None => {
            return Err(SamError::malformed());
        },
    };
    assemble(&tokens, decoded)
}

/// A delivered datagram that says 2 asks for mode 2, one that says 1 for
/// mode 1, and one that says 0 or nothing for mode 0.  Whatever else it
/// says, the mode is 0 and marked as not known: no value is an error.
pub proof fn lemma_ack_modes(value: Seq<u8>)
    ensures
        ack_of(value).0 == AckMode::AckAndWait <==> decimal_value(trimmed(value)) == Some(2nat),
        ack_of(value).0 == AckMode::AckNoWait <==> decimal_value(trimmed(value)) == Some(1nat),
        !ack_of(value).1 <==> trimmed(value).len() > 0 && decimal_value(trimmed(value)) != Some(
            0nat,
        ) && decimal_value(trimmed(value)) != Some(1nat) && decimal_value(trimmed(value)) != Some(
            2nat,
        ),
        !ack_of(value).1 ==> ack_of(value).0 == AckMode::NoAck,
{
}

} // verus!
