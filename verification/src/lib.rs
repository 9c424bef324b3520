//! Economic bookkeeping for a self-replicating population of autonomous
//! agents.
//!
//! Each agent owns a treasury of value units, earns and spends against it,
//! and may spawn a child by committing part of its treasury as a seed while
//! passing down a mutated copy of its configuration. This crate holds the
//! lifecycle state machine and the genealogy rules: birth, funding, earning,
//! spending, death, and reproduction, together with the invariants that keep
//! the economy consistent (no value created from nothing, no agent acting
//! after death, no reproduction the parent cannot afford).
//!
//! Durable storage, caller-signature verification, the mechanism that
//! actually moves value between balances, and the clock are collaborators of
//! the environment: operations here take their results as plain values (a
//! caller identity, a transfer outcome, a timestamp, a mutation seed) and
//! decide every state transition from them.

pub mod agent;
pub mod engine;
pub mod laws;
pub mod ledger;
pub mod params;
