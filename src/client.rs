//! Configuration of the blocking client: where the daemon listens, and how
//! long each read and write may take.
use vstd::prelude::*;

use crate::error::GetMyIdError;

verus! {

/// Where the daemon listens unless configured otherwise.
pub const DEFAULT_SOCKET_PATH: &'static str = "/var/run/whoami.sock";

/// The timeout unless configured otherwise, in seconds.
pub const DEFAULT_TIMEOUT_SECS: u64 = 5;

/// The duration of a whole number of seconds, as `Duration::from_secs` builds it.
pub uninterp spec fn duration_of_secs(secs: u64) -> core::time::Duration;

/// Relies on `Duration::from_secs`: the duration depends on the seconds alone.
pub assume_specification[ core::time::Duration::from_secs ](secs: u64) -> (r: core::time::Duration)
    ensures
        r == duration_of_secs(secs),
;

/// The error for a socket path that does not exist; `None` where it does, and
/// a connection may be attempted.
pub fn socket_not_found(path: &str, exists: bool) -> (r: Option<GetMyIdError>)
    ensures
        exists <==> r is None,
        r matches Some(e) ==> (e matches GetMyIdError::SocketNotFound(p) && p@ == path@),
{
    if exists {
        None
    } else {
        Some(GetMyIdError::SocketNotFound(String::from_str(path)))
    }
}

/// Blocking client of the daemon. It holds configuration only: each call
/// opens a connection of its own.
#[derive(Debug, Clone)]
pub struct Client {
    socket_path: String,
    timeout: Option<core::time::Duration>,
}

impl Client {
    /// The configured socket path.
    pub closed spec fn path_view(&self) -> Seq<char> {
        self.socket_path@
    }

    /// The configured timeout.
    pub closed spec fn timeout_view(&self) -> Option<core::time::Duration> {
        self.timeout
    }

    /// A client with the default socket path and timeout.
    pub fn new() -> (r: Self)
        ensures
            r.path_view() == DEFAULT_SOCKET_PATH@,
            r.timeout_view() == Some(duration_of_secs(DEFAULT_TIMEOUT_SECS)),
    {
        Client {
            socket_path: String::from_str(DEFAULT_SOCKET_PATH),
            timeout: Some(core::time::Duration::from_secs(DEFAULT_TIMEOUT_SECS)),
        }
    }

    /// A builder that starts from the defaults.
    pub fn builder() -> (r: ClientBuilder)
        ensures
            r.path_view() == DEFAULT_SOCKET_PATH@,
            r.timeout_view() == Some(duration_of_secs(DEFAULT_TIMEOUT_SECS)),
    {
        ClientBuilder::new()
    }

    /// The configured socket path.
    pub fn socket_path(&self) -> (r: &str)
        ensures
            r@ == self.path_view(),
    {
        self.socket_path.as_str()
    }

    /// The configured timeout; `None` means no bound.
    pub fn timeout(&self) -> (r: Option<core::time::Duration>)
        ensures
            r == self.timeout_view(),
    {
        self.timeout
    }

    /// The error to report before any connection where the socket path does
    /// not exist.
    pub fn check_socket(&self, exists: bool) -> (r: Result<(), GetMyIdError>)
        ensures
            exists <==> r is Ok,
            r matches Err(e) ==> (e matches GetMyIdError::SocketNotFound(p) && p@
                == self.path_view()),
    {
        match socket_not_found(self.socket_path.as_str(), exists) {
            Some(e) => Err(e),
            None => Ok(()),
        }
    }
}

impl Default for Client {
    fn default() -> (r: Self)
        ensures
            r.path_view() == DEFAULT_SOCKET_PATH@,
            r.timeout_view() == Some(duration_of_secs(DEFAULT_TIMEOUT_SECS)),
    {
        Self::new()
    }
}

/// Builder of a [`Client`].
#[derive(Debug, Clone)]
pub struct ClientBuilder {
    socket_path: String,
    timeout: Option<core::time::Duration>,
}

impl ClientBuilder {
    /// The socket path set so far.
    pub closed spec fn path_view(&self) -> Seq<char> {
        self.socket_path@
    }

    /// The timeout set so far.
    pub closed spec fn timeout_view(&self) -> Option<core::time::Duration> {
        self.timeout
    }

    /// A builder with the default socket path and timeout.
    pub fn new() -> (r: Self)
        ensures
            r.path_view() == DEFAULT_SOCKET_PATH@,
            r.timeout_view() == Some(duration_of_secs(DEFAULT_TIMEOUT_SECS)),
    {
        ClientBuilder {
            socket_path: String::from_str(DEFAULT_SOCKET_PATH),
            timeout: Some(core::time::Duration::from_secs(DEFAULT_TIMEOUT_SECS)),
        }
    }

    /// Sets the socket path.
    pub fn socket_path(self, path: &str) -> (r: Self)
        ensures
            r.path_view() == path@,
            r.timeout_view() == self.timeout_view(),
    {
        ClientBuilder { socket_path: String::from_str(path), timeout: self.timeout }
    }

    /// Sets the timeout; `None` disables it.
    pub fn timeout(self, timeout: Option<core::time::Duration>) -> (r: Self)
        ensures
            r.path_view() == self.path_view(),
            r.timeout_view() == timeout,
    {
        ClientBuilder { socket_path: self.socket_path, timeout }
    }

    /// The client with this configuration.
    pub fn build(self) -> (r: Client)
        ensures
            r.path_view() == self.path_view(),
            r.timeout_view() == self.timeout_view(),
    {
        Client { socket_path: self.socket_path, timeout: self.timeout }
    }
}

impl Default for ClientBuilder {
    fn default() -> (r: Self)
        ensures
            r.path_view() == DEFAULT_SOCKET_PATH@,
            r.timeout_view() == Some(duration_of_secs(DEFAULT_TIMEOUT_SECS)),
    {
        Self::new()
    }
}

} // verus!
