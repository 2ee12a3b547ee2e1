//! Client-side logic for a hub service.
//!
//! The hub speaks HTTP: a client logs in with credentials, holds an opaque
//! session, and issues typed requests (list servers, look up users, keep a
//! server alive, obtain access tokens, verify tokens).  This crate holds the
//! decision logic of such a client, specified and verified:
//!
//! * [`status`]   — how response status codes are classified;
//! * [`error`]    — the error taxonomy surfaced to callers;
//! * [`model`]    — the typed values the hub returns;
//! * [`paths`]    — the endpoint paths, built from verified formatting;
//! * [`executor`] — the re-authenticate-and-retry-once request pipeline;
//! * [`connect`]  — atomic assembly of a client instance;
//! * [`json`]     — a plain representation of response bodies, decoded
//!                  through `serde_json`;
//! * [`endpoints`] — per-endpoint response interpretation.
//!
//! The network itself (an async HTTP transport) sits outside this crate and
//! drives the state machines defined here.

pub mod connect;
pub mod endpoints;
pub mod error;
pub mod executor;
pub mod json;
pub mod model;
pub mod paths;
pub mod status;
