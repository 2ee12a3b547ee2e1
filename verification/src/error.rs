//! The error taxonomy surfaced to callers of the client.

use vstd::prelude::*;

verus! {

/// What can go wrong when talking to the hub.
///
/// * `Transport` — a network-level failure (connection, timeout); never
///   retried by the pipeline.
/// * `Authentication` — the hub rejected the credentials during login.
/// * `Request` — the hub answered with a status outside the 2xx range (and
///   outside any recognized alternate outcome); carries that status.
/// * `Payload` — the hub answered with a body that does not decode to the
///   endpoint's expected shape.
#[derive(Debug, Clone, Copy, PartialEq, Eq, Structural)]
pub enum HubError {
    Transport,
    Authentication,
    Request(u16),
    Payload,
}

} // verus!
