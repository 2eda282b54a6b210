//! What a running shard tells the manager that supervises it.

pub mod types;
