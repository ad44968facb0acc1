//! A client for the SAM control protocol of an I2P router, without the I/O.
//!
//! The crate holds the protocol itself: the command lines that a client
//! writes, the reply lines that it reads, the framing of datagrams and the
//! state machines that lead to a session.  Nothing here touches a socket, a
//! file or the clock: the caller moves the bytes and reports what it read.
//!
//! - `parser` and `serialize` read and write one line of the protocol.
//! - `reply` tells success from the errors that a router reports.
//! - `datagram` frames a datagram for sending and reads a delivered one.
//! - `connection`, `session` and `stream` are the three layers of a
//!   conversation with the router.
//! - `client` and `construction` build a client over a router that may not
//!   be ready yet.
//! - `address_book` reads the names that the user of the router has chosen.
pub mod text;
pub mod error;
pub mod sig;
pub mod parser;
pub mod serialize;
pub mod reply;
pub mod datagram;
pub mod connection;
pub mod session;
pub mod client;
pub mod construction;
pub mod address_book;
pub mod stream;

pub use client::{ClientAction, ClientEvent, ClientSetup, ClientStep, I2PClient, Phase};
pub use connection::SamConnection;
pub use datagram::{AckMode, Datagram, SendOutcome};
pub use error::{SamError, SamErrorKind};
pub use parser::{Reply, Token};
pub use reply::ReplyKind;
pub use session::{Session, SessionSetup, SetupStep};
pub use sig::{ClientType, SessionStyle, SigType};
pub use stream::StreamConnect;
