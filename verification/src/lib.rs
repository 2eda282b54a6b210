//! The protocol engine of a Leap gateway client: one shard, and the loop that
//! drives it.
//!
//! The engine never reads, writes or waits. What the WebSocket delivered is
//! handed to it, what it wants written or reported waits in it until it is
//! taken, and the time is what the caller says it is. In between it decides:
//! how a frame reads as an event, what an event does to the session, when a
//! heartbeat is due and when the gateway has gone silent, and when the shard
//! has to be replaced.
//!
//! - [`shard::socket`] turns messages into JSON values and values into frames.
//! - [`shard::types`] holds the protocol's vocabulary and reads frames as
//!   events.
//! - [`shard`] is the session: stage, sequence number and heartbeat.
//! - [`runner`] is the loop: commands, heartbeat, one event, what follows.
//! - [`errors`] and [`shard::error`] are the failures.
//! - [`json`] is the boundary to `serde_json`.
//!
//! Every function is verified against a model of the state it works on;
//! [`shard::theorems`] and [`runner::theorems`] state what follows from the
//! models for every session and every run.

pub mod errors;
pub mod json;
pub mod manager;
pub mod runner;
pub mod shard;
