//! Entries of the replicated log.

use vstd::prelude::*;

use crate::identity::NodeId;
use crate::replication::{LogIndex, Term};

verus! {

/// Opaque serialised bytes representing a storage engine operation.
///
/// The consensus layer replicates this payload without interpreting its
/// contents. The storage engine is responsible for serialising before
/// `propose()` and deserialising inside `StateMachine::apply()`.
#[derive(Hash, Clone, Debug)]
pub struct Payload(pub Vec<u8>);

/// A single entry in the replicated log.
///
/// Carries the protocol fields required for distributed correctness
/// alongside an opaque [`Payload`]. On a single-node deployment `term` is
/// `0` and `log_index` starts at `1`.
#[derive(Hash, Clone, Debug)]
pub struct LogEntry {
    /// The term in which this entry was proposed.
    pub term: Term,
    /// The position of this entry in the log.
    pub log_index: LogIndex,
    /// The node that originated this entry.
    pub node_id: NodeId,
    /// Serialised storage engine operation — opaque to the consensus layer.
    pub payload: Payload,
}

} // verus!
