//! Client side of a local identity daemon reached over a Unix domain socket:
//! the request that carries the caller's context, the decoding of the
//! daemon's answer into an identity or a typed error, and the configuration
//! of the blocking and cooperative clients.
//!
//! The socket work itself (connect, write, half-close, read to the end) is
//! left to the caller's runtime; this crate decides what is sent, what the
//! answer means, and which error a failed round trip reports.
pub mod async_client;
pub mod client;
pub mod error;
pub mod json;
pub mod types;
pub mod wire;

pub use async_client::{deadline_outcome, AsyncClient, AsyncClientBuilder};
pub use client::{socket_not_found, Client, ClientBuilder, DEFAULT_SOCKET_PATH, DEFAULT_TIMEOUT_SECS};
pub use error::GetMyIdError;
pub use types::{unix_timestamp, Identity, Runner, RunnerRequest};
pub use wire::{decode_members, parse_response, request_body};
