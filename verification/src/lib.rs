//! Core logic of a user-profile query service backed by a graph database
//! that speaks a binary, session-oriented wire protocol.
//!
//! The verified library covers the protocol-outcome classification policy,
//! the positional projection of raw result rows into typed records, the
//! fan-out aggregation engine that merges several per-metric query results
//! into one composite record per user identity, the pooled-session
//! discipline, the fan-in choice between two accept sources, and the
//! per-handler decisions (auth gating, not-found mapping). The unverified
//! binary around it performs the actual network and wire-protocol I/O.

pub mod aggregate;
pub mod fanin;
pub mod handler;
pub mod health;
pub mod outcome;
pub mod project;
pub mod records;
pub mod session;
pub mod templates;
pub mod value;
