//! Core data model of a bitemporal database: hybrid logical clock
//! timestamps, record identity, valid-time intervals, records, an in-memory
//! store with temporal queries, write-ahead-log framing and the types
//! shared with the consensus layer.

pub mod text;
pub mod hlc;
pub mod identity;
pub mod interval;
pub mod record;
pub mod replication;
pub mod wal;
pub mod order;
pub mod store;
pub mod consensus;
