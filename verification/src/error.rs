//! The errors that the protocol layer reports.
use vstd::prelude::*;

verus! {

/// What went wrong, as a closed set of kinds.
#[derive(Debug, Clone, Copy, PartialEq, Eq, Structural)]
pub enum SamErrorKind {
    /// The peer, key or name is unknown to the router.
    NotFound,
    /// The destination is already in use by another session.
    AddressInUse,
    /// The router rejected a key or a session id.
    InvalidInput,
    /// The router gave up waiting.
    TimedOut,
    /// The router reported a failure of its own.
    RouterError,
    /// The router answered with a result code that this client does not know.
    Unclassified,
    /// A reply that could not be read as protocol text.
    MalformedReply,
    /// The handshake failed, or no session could be established in the
    /// attempts allowed.
    ConnectionRefused,
    /// The router supports no protocol version in the range offered.
    NoVersion,
}

/// An error of the protocol layer: its kind, the result code that the router
/// sent (empty where the error did not come from a reply) and the message
/// that came with it (empty where none did).
#[derive(Debug, Clone, PartialEq, Eq)]
pub struct SamError {
    pub kind: SamErrorKind,
    pub result: Vec<u8>,
    pub message: Vec<u8>,
}

/// The mathematical value of a `SamError`.
pub struct SamErrorView {
    pub kind: SamErrorKind,
    pub result: Seq<u8>,
    pub message: Seq<u8>,
}

impl View for SamError {
    type V = SamErrorView;

    open spec fn view(&self) -> SamErrorView {
        SamErrorView { kind: self.kind, result: self.result@, message: self.message@ }
    }
}

impl SamErrorView {
    /// An error of the given kind that carries no text.
    pub open spec fn bare(kind: SamErrorKind) -> SamErrorView {
        SamErrorView { kind, result: Seq::empty(), message: Seq::empty() }
    }

    /// The error for a reply that could not be read.
    pub open spec fn malformed() -> SamErrorView {
        Self::bare(SamErrorKind::MalformedReply)
    }
}

impl SamError {
    pub fn new(kind: SamErrorKind, result: Vec<u8>, message: Vec<u8>) -> (e: SamError)
        ensures
            e@ == (SamErrorView { kind, result: result@, message: message@ }),
    {
        SamError { kind, result, message }
    }

    /// An error of the given kind that carries no text.
    pub fn bare(kind: SamErrorKind) -> (e: SamError)
        ensures
            e@ == SamErrorView::bare(kind),
    {
        SamError { kind, result: Vec::new(), message: Vec::new() }
    }

    /// The error for a reply that could not be read.
    pub fn malformed() -> (e: SamError)
        ensures
            e@ == SamErrorView::malformed(),
    {
        SamError::bare(SamErrorKind::MalformedReply)
    }

}

} // verus!
