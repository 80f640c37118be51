//! Configuration of the client for a cooperative runtime, where one deadline
//! bounds the whole round trip.
use vstd::prelude::*;

use crate::client::{duration_of_secs, socket_not_found, DEFAULT_SOCKET_PATH, DEFAULT_TIMEOUT_SECS};
use crate::error::GetMyIdError;
use crate::types::Identity;

verus! {

/// Client of the daemon for a cooperative runtime. It holds configuration
/// only: each call opens a connection of its own.
#[derive(Debug, Clone)]
pub struct AsyncClient {
    socket_path: String,
    timeout: Option<core::time::Duration>,
}

impl AsyncClient {
    /// The configured socket path.
    pub closed spec fn path_view(&self) -> Seq<char> {
        self.socket_path@
    }

    /// The configured timeout.
    pub closed spec fn timeout_view(&self) -> Option<core::time::Duration> {
        self.timeout
    }

    /// A client with the default socket path and timeout.
    pub fn new() -> (r: Self)
        ensures
            r.path_view() == DEFAULT_SOCKET_PATH@,
            r.timeout_view() == Some(duration_of_secs(DEFAULT_TIMEOUT_SECS)),
    {
        AsyncClient {
            socket_path: String::from_str(DEFAULT_SOCKET_PATH),
            timeout: Some(core::time::Duration::from_secs(DEFAULT_TIMEOUT_SECS)),
        }
    }

    /// A builder that starts from the defaults.
    pub fn builder() -> (r: AsyncClientBuilder)
        ensures
            r.path_view() == DEFAULT_SOCKET_PATH@,
            r.timeout_view() == Some(duration_of_secs(DEFAULT_TIMEOUT_SECS)),
    {
        AsyncClientBuilder::new()
    }

    /// The configured socket path.
    pub fn socket_path(&self) -> (r: &str)
        ensures
            r@ == self.path_view(),
    {
        self.socket_path.as_str()
    }

    /// The configured timeout; `None` means no bound.
    pub fn timeout(&self) -> (r: Option<core::time::Duration>)
        ensures
            r == self.timeout_view(),
    {
        self.timeout
    }

    /// The error to report before any connection where the socket path does
    /// not exist.
    pub fn check_socket(&self, exists: bool) -> (r: Result<(), GetMyIdError>)
        ensures
            exists <==> r is Ok,
            r matches Err(e) ==> (e matches GetMyIdError::SocketNotFound(p) && p@
                == self.path_view()),
    {
        match socket_not_found(self.socket_path.as_str(), exists) {
            Some(e) => Err(e),
            None => Ok(()),
        }
    }
}

impl Default for AsyncClient {
    fn default() -> (r: Self)
        ensures
            r.path_view() == DEFAULT_SOCKET_PATH@,
            r.timeout_view() == Some(duration_of_secs(DEFAULT_TIMEOUT_SECS)),
    {
        Self::new()
    }
}

/// Builder of an [`AsyncClient`].
#[derive(Debug, Clone)]
pub struct AsyncClientBuilder {
    socket_path: String,
    timeout: Option<core::time::Duration>,
}

impl AsyncClientBuilder {
    /// The socket path set so far.
    pub closed spec fn path_view(&self) -> Seq<char> {
        self.socket_path@
    }

    /// The timeout set so far.
    pub closed spec fn timeout_view(&self) -> Option<core::time::Duration> {
        self.timeout
    }

    /// A builder with the default socket path and timeout.
    pub fn new() -> (r: Self)
        ensures
            r.path_view() == DEFAULT_SOCKET_PATH@,
            r.timeout_view() == Some(duration_of_secs(DEFAULT_TIMEOUT_SECS)),
    {
        AsyncClientBuilder {
            socket_path: String::from_str(DEFAULT_SOCKET_PATH),
            timeout: Some(core::time::Duration::from_secs(DEFAULT_TIMEOUT_SECS)),
        }
    }

    /// Sets the socket path.
    pub fn socket_path(self, path: &str) -> (r: Self)
        ensures
            r.path_view() == path@,
            r.timeout_view() == self.timeout_view(),
    {
        AsyncClientBuilder { socket_path: String::from_str(path), timeout: self.timeout }
    }

    /// Sets the timeout; `None` disables it.
    pub fn timeout(self, timeout: Option<core::time::Duration>) -> (r: Self)
        ensures
            r.path_view() == self.path_view(),
            r.timeout_view() == timeout,
    {
        AsyncClientBuilder { socket_path: self.socket_path, timeout }
    }

    /// The client with this configuration.
    pub fn build(self) -> (r: AsyncClient)
        ensures
            r.path_view() == self.path_view(),
            r.timeout_view() == self.timeout_view(),
    {
        AsyncClient { socket_path: self.socket_path, timeout: self.timeout }
    }
}

impl Default for AsyncClientBuilder {
    fn default() -> (r: Self)
        ensures
            r.path_view() == DEFAULT_SOCKET_PATH@,
            r.timeout_view() == Some(duration_of_secs(DEFAULT_TIMEOUT_SECS)),
    {
        Self::new()
    }
}

/// The outcome of a round trip run under a deadline: what the round trip
/// returned where it finished in time (`Some`), and otherwise a timeout that
/// carries the configured duration, whatever the unfinished work would have
/// returned.
pub fn deadline_outcome(
    timeout: core::time::Duration,
    finished: Option<Result<Identity, GetMyIdError>>,
) -> (r: Result<Identity, GetMyIdError>)
    ensures
        match finished {
            Some(x) => r == x,
            None => r matches Err(GetMyIdError::Timeout(d)) && d == timeout,
        },
{
    match finished {
        Some(x) => x,
        None => Err(GetMyIdError::Timeout(timeout)),
    }
}

} // verus!
