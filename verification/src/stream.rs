//! The byte-stream variant: a stream to a peer, opened over a second
//! control connection beside a session of stream style.
use vstd::prelude::*;
use vstd::string::*;
use crate::connection::{named_value, SamConnection, SamConnectionView};
use crate::error::{SamError, SamErrorView};
use crate::reply::{read_reply, reply_tokens, ReplyKind};
use crate::session::{Session, SessionView};
use crate::text::{
    copy_bytes, decimal, format_decimal, push_bytes, push_text, text, text_vec,
};

verus! {

/// A stream to a peer: the connection that carries it, the session that it
/// belongs to, and the two ends by destination and port.
#[derive(Debug, PartialEq, Eq)]
pub struct StreamConnect {
    sam: SamConnection,
    session: Session,
    peer_dest: Vec<u8>,
    peer_port: u16,
    local_port: u16,
}

/// The mathematical value of a `StreamConnect`.
pub struct StreamConnectView {
    pub sam: SamConnectionView,
    pub session: SessionView,
    pub peer_dest: Seq<u8>,
    pub peer_port: u16,
    pub local_port: u16,
}

impl View for StreamConnect {
    type V = StreamConnectView;

    closed spec fn view(&self) -> StreamConnectView {
        StreamConnectView {
            sam: self.sam@,
            session: self.session@,
            peer_dest: self.peer_dest@,
            peer_port: self.peer_port,
            local_port: self.local_port,
        }
    }
}

/// `STREAM CONNECT` to `destination` at `port`, for the session under
/// `nickname`.
pub open spec fn stream_connect_text(nickname: Seq<u8>, destination: Seq<u8>, port: u16) -> Seq<
    u8,
> {
    text("STREAM CONNECT ID=") + nickname + text(" DESTINATION=") + destination + text(
        " SILENT=false TO_PORT=",
    ) + decimal(port as nat) + text("\n")
}

/// Whether the router's answer to `STREAM CONNECT` reports success, and
/// the error where it does not.
pub open spec fn stream_status(reply: Seq<u8>) -> Result<(), SamErrorView> {
    match reply_tokens(ReplyKind::StreamStatus, reply) {
        Err(e) => Err(e),
        Ok(_) => Ok(()),
    }
}

/// The stream that the router's answer to the lookup of the peer
/// completes.  The local port is 0: the router picks it.
pub open spec fn stream_to(
    sam: SamConnectionView,
    session: SessionView,
    port: u16,
    peer_reply: Seq<u8>,
) -> Result<StreamConnectView, SamErrorView> {
    match named_value(peer_reply) {
        Err(e) => Err(e),
        Ok(peer_dest) => Ok(
            StreamConnectView { sam, session, peer_dest, peer_port: port, local_port: 0 },
        ),
    }
}

impl StreamConnect {
    /// The command that opens the stream, to be written on the second
    /// connection after its handshake.
    pub fn connect_request(nickname: &[u8], destination: &[u8], port: u16) -> (command: Vec<u8>)
        ensures
            command@ == stream_connect_text(nickname@, destination@, port),
    {
        let mut out = text_vec("STREAM CONNECT ID=");
        push_bytes(&mut out, nickname);
        push_text(&mut out, " DESTINATION=");
        push_bytes(&mut out, destination);
        push_text(&mut out, " SILENT=false TO_PORT=");
        let digits = format_decimal(port as usize);
        push_bytes(&mut out, digits.as_slice());
        push_text(&mut out, "\n");
        out
    }

    /// Reads the router's answer to `STREAM CONNECT`.  After `Ok` the
    /// destination of the peer is to be looked up on the session.
    pub fn status(reply: &[u8]) -> (r: Result<(), SamError>)
        ensures
            match r {
                Ok(_) => stream_status(reply@) == Ok::<(), SamErrorView>(()),
                Err(e) => stream_status(reply@) == Err::<(), SamErrorView>(e@),
            },
    {
        match read_reply(ReplyKind::StreamStatus, reply) {
            Ok(_) => Ok(()),
            Err(e) => Err(e),
        }
    }

    /// Completes the stream with the router's answer to the lookup of the
    /// peer's destination.  `sam` is the connection on which the stream was
    /// opened and `session` the session that it belongs to.
    pub fn new(sam: SamConnection, session: Session, port: u16, peer_reply: &[u8]) -> (r: Result<
        StreamConnect,
        SamError,
    >)
        ensures
            match r {
                Ok(s) => stream_to(sam@, session@, port, peer_reply@) == Ok::<
                    StreamConnectView,
                    SamErrorView,
                >(s@),
                Err(e) => stream_to(sam@, session@, port, peer_reply@) == Err::<
                    StreamConnectView,
                    SamErrorView,
                >(e@),
            },
    {
        match session.naming_lookup(peer_reply) {
            Err(e) => Err(e),
            Ok(peer_dest) => Ok(
                StreamConnect { sam, session, peer_dest, peer_port: port, local_port: 0 },
            ),
        }
    }

    /// The peer's end of the stream: its destination and port.
    pub fn peer_addr(&self) -> (r: (Vec<u8>, u16))
        ensures
            r.0@ == self@.peer_dest,
            r.1 == self@.peer_port,
    {
        (copy_bytes(self.peer_dest.as_slice()), self.peer_port)
    }

    /// This end of the stream: the full destination of the session, and the
    /// local port.
    pub fn local_addr(&self) -> (r: (Vec<u8>, u16))
        ensures
            r.0@ == self@.session.local_full_dest,
            r.1 == self@.local_port,
    {
        (copy_bytes(self.session.local_full_dest().as_slice()), self.local_port)
    }

    /// The connection that carries the stream.
    pub fn sam(&self) -> (c: &SamConnection)
        ensures
            c@ == self@.sam,
    {
        &self.sam
    }

    /// The session that the stream belongs to.
    pub fn session(&self) -> (s: &Session)
        ensures
            s@ == self@.session,
    {
        &self.session
    }

    /// A second handle with the state of this one.
    pub fn duplicate(&self) -> (r: StreamConnect)
        ensures
            r@ == self@,
    {
        StreamConnect {
            sam: self.sam.duplicate(),
            session: self.session.duplicate(),
            peer_dest: copy_bytes(self.peer_dest.as_slice()),
            peer_port: self.peer_port,
            local_port: self.local_port,
        }
    }
}

} // verus!
