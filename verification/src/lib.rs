//! A single-writer persistence pipeline: a bounded queue of records feeds a
//! dedicated worker that owns the only database connection and applies a
//! bounded retry-with-reconnect policy per record.
//!
//! This crate verifies the decision logic of that pipeline: the per-record
//! insert/commit/reconnect/rollback state machine, the worker's consumption
//! loop, and the bounded queue's backpressure discipline. The surrounding
//! system performs the actual connection handling and blocking channel reads
//! and drives the state machine with the outcomes it observes.

pub mod error;
pub mod laws;
pub mod messages;
pub mod protocol;
pub mod queue;
pub mod record;
pub mod worker;
