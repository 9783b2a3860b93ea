//! Verified core of a connection-admission-controlled push server.
//!
//! The server accepts inbound stream connections, bounds the number of
//! concurrent clients with a counting permit pool, and pushes the latest
//! shared payload to every connected client whenever new data is announced.
//! This crate verifies the concurrency and lifecycle protocol: admission
//! accounting, coalesced readiness signalling, the per-connection handler
//! state machine, listener retry backoff, and the two-phase coordinated
//! shutdown. The byte-stream transport itself is a separate, unverified
//! concern: a driver performs the I/O and feeds the outcomes back into
//! these state machines.

pub mod admission;
pub mod handler;
pub mod listener;
pub mod payload;
pub mod server;
pub mod signal;
