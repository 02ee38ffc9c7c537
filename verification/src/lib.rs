//! Temporal sanction engine: time-bounded moderation restrictions with
//! durable records, scheduled expiry, and rejoin reconciliation.
//!
//! The engine decides; an embedding performs. Every decision — which record a
//! resolution owns, which directory calls restoration owes, how an expiry
//! timer races a manual unmute or a rejoin — is made here, over plain values,
//! and carries a contract. The embedding supplies the transports (a record
//! database, the community platform's HTTP API) and hands their results back
//! as plain values.

pub mod ban;
pub mod directory;
pub mod expiry;
pub mod outcome;
pub mod record;
pub mod rejoin;
pub mod scheduler;
pub mod store;
