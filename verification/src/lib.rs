//! A command-driven block production engine for a test or permissioned chain.
//!
//! Callers push commands ("seal a new block", "finalize a block"); the engine turns each
//! into requests to the node's services and, from their answers, decides what happens
//! next. Everything here is a decision over plain values: the services themselves (the
//! proposer, the import pipeline, the epoch store, timers and channels) are driven by the
//! embedding code, which performs each requested effect and reports its outcome.

pub mod babe;
pub mod consensus;
pub mod engine;
pub mod heartbeat_stream;
pub mod network_state;
pub mod error;
pub mod offchain;
pub mod pipeline;
pub mod rpc;
pub mod scale;
