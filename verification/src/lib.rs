//! A reload supervisor for a query server whose schema is derived from data
//! that can change shape at run time.
//!
//! The supervisor is a state machine: the embedding program performs the
//! outside work (building a schema, running a listener, waiting for an
//! invalidation) and reports each outcome as an [`protocol::Event`]; the
//! supervisor answers with the [`protocol::Action`] to perform next.

pub mod config;
pub mod explorer;
pub mod laws;
pub mod protocol;
pub mod supervisor;
pub mod trace;
