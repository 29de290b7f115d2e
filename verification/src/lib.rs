//! Connection protocol state machine for one-to-one real-time calls.
//!
//! The library advances a call connection through its negotiation lifecycle
//! from a single serialized stream of events, deduplicates redundant remote
//! status messages, and describes every side effect (messages to send,
//! observers to notify) as data handed to background executors, so that the
//! event-processing thread itself never blocks on I/O.

pub mod bridge;
pub mod common;
pub mod errors;
pub mod events;
pub mod fsm;
pub mod laws;
pub mod model;
pub mod queue;
pub mod report;
pub mod sink;
