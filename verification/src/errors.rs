//! Error taxonomy of the tunnel core. Every error is fatal to its session:
//! there is no retry below the level of the outbound candidate list.

use vstd::prelude::*;

verus! {

/// The five failure classes, without their messages.
#[derive(PartialEq, Eq, Structural, Clone, Copy, Debug)]
pub enum ErrorKind {
    Transport,
    Protocol,
    Crypto,
    Outbound,
    Resolution,
}

/// Why a session was aborted (or, for `Outbound` / `Resolution`, why one
/// outbound attempt failed).
#[derive(Debug)]
pub enum ProxyError {
    /// Oversized frame or an underlying transport failure.
    Transport(String),
    /// Insufficient sniff data, unrecognized structure, malformed field.
    Protocol(String),
    /// Authentication-tag failure, key-derivation mismatch, unsupported version.
    Crypto(String),
    /// Connect or relay failure against one outbound candidate.
    Outbound(String),
    /// DNS exchange failure on the UDP path.
    Resolution(String),
}

impl ProxyError {
    /// The human-readable message carried by the error.
    pub open spec fn spec_message(&self) -> Seq<char> {
        match self {
            ProxyError::Transport(m) => m@,
            ProxyError::Protocol(m) => m@,
            ProxyError::Crypto(m) => m@,
            ProxyError::Outbound(m) => m@,
            ProxyError::Resolution(m) => m@,
        }
    }

    /// The failure class of the error.
    pub open spec fn spec_kind(&self) -> ErrorKind {
        match self {
            ProxyError::Transport(_) => ErrorKind::Transport,
            ProxyError::Protocol(_) => ErrorKind::Protocol,
            ProxyError::Crypto(_) => ErrorKind::Crypto,
            ProxyError::Outbound(_) => ErrorKind::Outbound,
            ProxyError::Resolution(_) => ErrorKind::Resolution,
        }
    }

    /// Returns the failure class of the error.
    pub fn kind(&self) -> (r: ErrorKind)
        ensures
            r == self.spec_kind(),
    {
        match self {
            ProxyError::Transport(_) => ErrorKind::Transport,
            ProxyError::Protocol(_) => ErrorKind::Protocol,
            ProxyError::Crypto(_) => ErrorKind::Crypto,
            ProxyError::Outbound(_) => ErrorKind::Outbound,
            ProxyError::Resolution(_) => ErrorKind::Resolution,
        }
    }

    /// Returns the message carried by the error.
    pub fn message(&self) -> (r: &String)
        ensures
            r@ == self.spec_message(),
    {
        match self {
            ProxyError::Transport(m) => m,
            ProxyError::Protocol(m) => m,
            ProxyError::Crypto(m) => m,
            ProxyError::Outbound(m) => m,
            ProxyError::Resolution(m) => m,
        }
    }

}

} // verus!
