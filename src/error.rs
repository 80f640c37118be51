//! The errors that a round trip with the daemon can end in.
use vstd::prelude::*;

verus! {

#[verifier::external_type_specification]
#[verifier::external_body]
pub struct ExIoError(std::io::Error);

/// Why no identity came back. Each kind names the phase that failed.
#[derive(Debug)]
pub enum GetMyIdError {
    /// The socket path exists but the connection could not be opened.
    ConnectionFailed {
        /// The socket path that failed to connect.
        path: String,
        /// The underlying I/O error.
        source: std::io::Error,
    },
    /// Reading the response failed.
    ReadError(std::io::Error),
    /// Writing the request failed.
    WriteError(std::io::Error),
    /// The request could not be encoded, or the response is not the JSON
    /// document expected.
    InvalidJson(serde_json::Error),
    /// The daemon answered with an error of its own.
    DaemonError {
        /// Error code from the daemon (such as `E_NO_MATCH`).
        code: String,
        /// Human-readable message from the daemon.
        message: String,
    },
    /// The response is JSON, but its members do not fit its status.
    MissingField {
        /// The member that the status called for.
        field: &'static str,
    },
    /// The socket path does not exist.
    SocketNotFound(String),
    /// The round trip took longer than the configured timeout.
    Timeout(core::time::Duration),
}

} // verus!
