//! The small enumerations of the protocol and their wire names.
use vstd::prelude::*;
use vstd::string::*;
use crate::error::{SamError, SamErrorKind, SamErrorView};
use crate::text::{push_text, str_eq, text, text_vec};

verus! {

/// The signature scheme of a destination's signing key.
#[derive(Debug, Clone, Copy, PartialEq, Eq, Structural)]
pub enum SigType {
    /// Ed25519 with SHA-512.
    EdDsaSha512Ed25519,
    /// The prehash variant of Ed25519, for offline signing.
    EdDsaSha512Ed25519ph,
    /// Blinded Ed25519, used for encrypted lease sets.
    RedDsaSha512Ed25519,
    /// DSA with SHA-1.
    DsaSha1,
}

impl SigType {
    /// The name of the scheme on the wire.
    pub open spec fn wire_name(self) -> Seq<char> {
        match self {
            SigType::EdDsaSha512Ed25519 => "EDDSA_SHA512_ED25519"@,
            SigType::EdDsaSha512Ed25519ph => "EDDSA_SHA512_ED25519PH"@,
            SigType::RedDsaSha512Ed25519 => "REDDSA_SHA512_ED25519"@,
            SigType::DsaSha1 => "DSA_SHA1"@,
        }
    }

    /// The scheme that a wire name denotes, if any.
    pub open spec fn named(name: Seq<char>) -> Option<SigType> {
        if name == "EDDSA_SHA512_ED25519"@ {
            Some(SigType::EdDsaSha512Ed25519)
        } else if name == "EDDSA_SHA512_ED25519PH"@ {
            Some(SigType::EdDsaSha512Ed25519ph)
        } else if name == "REDDSA_SHA512_ED25519"@ {
            Some(SigType::RedDsaSha512Ed25519)
        } else if name == "DSA_SHA1"@ {
            Some(SigType::DsaSha1)
        } else {
            None
        }
    }

    /// The error that `from_str` gives for a name that denotes no scheme.
    pub open spec fn unsupported(name: &str) -> SamErrorView {
        SamErrorView {
            kind: SamErrorKind::InvalidInput,
            result: Seq::empty(),
            message: text("SigType provided not supported: ") + text(name),
        }
    }

    pub fn as_string(&self) -> (name: &'static str)
        ensures
            name@ == self.wire_name(),
    {
        match *self {
            SigType::EdDsaSha512Ed25519 => "EDDSA_SHA512_ED25519",
            SigType::EdDsaSha512Ed25519ph => "EDDSA_SHA512_ED25519PH",
            SigType::RedDsaSha512Ed25519 => "REDDSA_SHA512_ED25519",
            SigType::DsaSha1 => "DSA_SHA1",
        }
    }

    pub fn from_str(sig_type: &str) -> (r: Result<SigType, SamError>)
        ensures
            match r {
                Ok(t) => Self::named(sig_type@) == Some(t),
                Err(e) => Self::named(sig_type@) is None && e@ == Self::unsupported(sig_type),
            },
    {
        if str_eq(sig_type, "EDDSA_SHA512_ED25519") {
            Ok(SigType::EdDsaSha512Ed25519)
        } else if str_eq(sig_type, "EDDSA_SHA512_ED25519PH") {
            Ok(SigType::EdDsaSha512Ed25519ph)
        } else if str_eq(sig_type, "REDDSA_SHA512_ED25519") {
            Ok(SigType::RedDsaSha512Ed25519)
        } else if str_eq(sig_type, "DSA_SHA1") {
            Ok(SigType::DsaSha1)
        } else {
            let mut message = text_vec("SigType provided not supported: ");
            push_text(&mut message, sig_type);
            Err(SamError::new(SamErrorKind::InvalidInput, Vec::new(), message))
        }
    }
}

/// Every scheme is found again under its wire name.
pub proof fn lemma_sig_type_round_trip(t: SigType)
    ensures
        SigType::named(t.wire_name()) == Some(t),
{
    reveal_strlit("EDDSA_SHA512_ED25519");
    reveal_strlit("EDDSA_SHA512_ED25519PH");
    reveal_strlit("REDDSA_SHA512_ED25519");
    reveal_strlit("DSA_SHA1");
    assert("EDDSA_SHA512_ED25519"@.len() == 20);
    assert("EDDSA_SHA512_ED25519PH"@.len() == 22);
    assert("REDDSA_SHA512_ED25519"@.len() == 21);
}

/// The framing of a session, fixed when the session is created.
#[derive(Debug, Clone, Copy, PartialEq, Eq, Structural)]
pub enum SessionStyle {
    /// Repliable, signed datagrams.
    Datagram,
    /// Anonymous datagrams without a sender.
    Raw,
    /// Byte streams.
    Stream,
}

impl SessionStyle {
    /// The name of the style on the wire.
    pub open spec fn wire_name(self) -> Seq<char> {
        match self {
            SessionStyle::Datagram => "DATAGRAM"@,
            SessionStyle::Raw => "RAW"@,
            SessionStyle::Stream => "STREAM"@,
        }
    }

    /// The style that a wire name denotes, if any.
    pub open spec fn named(name: Seq<char>) -> Option<SessionStyle> {
        if name == "DATAGRAM"@ {
            Some(SessionStyle::Datagram)
        } else if name == "RAW"@ {
            Some(SessionStyle::Raw)
        } else if name == "STREAM"@ {
            Some(SessionStyle::Stream)
        } else {
            None
        }
    }

    pub fn string(&self) -> (name: &'static str)
        ensures
            name@ == self.wire_name(),
    {
        match *self {
            SessionStyle::Datagram => "DATAGRAM",
            SessionStyle::Raw => "RAW",
            SessionStyle::Stream => "STREAM",
        }
    }

    /// The style that `name` denotes; `Err` for any other string.
    pub fn try_from(name: &str) -> (r: Result<SessionStyle, ()>)
        ensures
            match r {
                Ok(s) => Self::named(name@) == Some(s),
                Err(_) => Self::named(name@) is None,
            },
    {
        if str_eq(name, "DATAGRAM") {
            Ok(SessionStyle::Datagram)
        } else if str_eq(name, "RAW") {
            Ok(SessionStyle::Raw)
        } else if str_eq(name, "STREAM") {
            Ok(SessionStyle::Stream)
        } else {
            Err(())
        }
    }

    /// Whether datagrams can be sent and received on a session of this style.
    pub fn carries_datagrams(&self) -> (r: bool)
        ensures
            r == (*self == SessionStyle::Datagram || *self == SessionStyle::Raw),
    {
        match *self {
            SessionStyle::Datagram => true,
            SessionStyle::Raw => true,
            SessionStyle::Stream => false,
        }
    }
}

/// Every style is found again under its wire name.
pub proof fn lemma_session_style_round_trip(s: SessionStyle)
    ensures
        SessionStyle::named(s.wire_name()) == Some(s),
{
    reveal_strlit("DATAGRAM");
    reveal_strlit("RAW");
    reveal_strlit("STREAM");
    assert("DATAGRAM"@.len() == 8);
    assert("RAW"@.len() == 3);
}

/// Where the router that a client talks to runs.
#[derive(Debug, Clone, Copy, PartialEq, Eq, Structural)]
pub enum ClientType {
    /// A router that runs as a process of its own on this machine.
    Local,
    /// A router embedded in the application.
    Embedded,
}

impl ClientType {
    /// The number that stands for the type.
    pub fn code(&self) -> (c: u8)
        ensures
            c == match *self {
                ClientType::Local => 0u8,
                ClientType::Embedded => 1u8,
            },
    {
        match *self {
            ClientType::Local => 0,
            ClientType::Embedded => 1,
        }
    }
}

} // verus!
