//! The reports of a shard runner.

use vstd::prelude::*;

use crate::shard::types::Stage;

verus! {

/// The state of a shard as its runner last saw it.
#[derive(Clone, Copy, Debug, PartialEq, Eq, Structural)]
pub struct ShardRunnerUpdate {
    /// The time between the last heartbeat and its answer, in milliseconds.
    pub latency: Option<u64>,
    /// The stage of the session.
    pub stage: Stage,
}

/// One report of a shard runner to its manager.
#[derive(Clone, Debug, PartialEq)]
pub enum ShardManagerMessage {
    /// The payload of a dispatch, as it was received.
    Event(serde_json::Value),
    /// Latency and stage, after a change.
    Update(ShardRunnerUpdate),
    /// The shard has given up its connection and asks to be replaced.
    Restart,
    /// The gateway rejected the credentials; a replacement would fare no better.
    InvalidAuthentication,
}

} // verus!
