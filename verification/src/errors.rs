//! Application-wide error type.
//!
//! Every failure the library reports is one of these kinds. The session
//! manager uses the first six; the remaining kinds cover the storage,
//! key-management and HTTP glue around it.

use vstd::prelude::*;

verus! {

/// Application-wide error type.
#[derive(Debug, PartialEq, Eq)]
pub enum AppError {
    /// A connect was attempted for a server id that is already present.
    AlreadyConnected(String),
    /// An operation referenced an unknown session or record id.
    NotFound(String),
    /// A helper subprocess could not be started.
    SpawnFailure(String),
    /// The protocol initialization handshake did not complete.
    HandshakeFailure(String),
    /// A connected peer's remote call returned an error.
    RemoteCallFailure(String),
    /// A configuration record requested a transport this path cannot serve.
    UnsupportedTransport(String),
    /// Credential-store failure.
    Keyring(String),
    /// Filesystem failure.
    Io(String),
    /// JSON encoding or decoding failure.
    Json(String),
    /// HTTP failure.
    Http(String),
    /// Other protocol-level failure.
    Mcp(String),
}

impl AppError {
    /// The detail string carried by the error.
    pub fn detail(&self) -> (r: &String)
        ensures
            r == self.spec_detail(),
    {
        match self {
            AppError::AlreadyConnected(s) => s,
            AppError::NotFound(s) => s,
            AppError::SpawnFailure(s) => s,
            AppError::HandshakeFailure(s) => s,
            AppError::RemoteCallFailure(s) => s,
            AppError::UnsupportedTransport(s) => s,
            AppError::Keyring(s) => s,
            AppError::Io(s) => s,
            AppError::Json(s) => s,
            AppError::Http(s) => s,
            AppError::Mcp(s) => s,
        }
    }

    /// The detail string, at the specification level.
    pub open spec fn spec_detail(&self) -> &String {
        match self {
            AppError::AlreadyConnected(s) => s,
            AppError::NotFound(s) => s,
            AppError::SpawnFailure(s) => s,
            AppError::HandshakeFailure(s) => s,
            AppError::RemoteCallFailure(s) => s,
            AppError::UnsupportedTransport(s) => s,
            AppError::Keyring(s) => s,
            AppError::Io(s) => s,
            AppError::Json(s) => s,
            AppError::Http(s) => s,
            AppError::Mcp(s) => s,
        }
    }
}

} // verus!
