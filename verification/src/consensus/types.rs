//! Log positions, terms and entries of the consensus layer.

use vstd::prelude::*;

use crate::identity::NodeId;

verus! {

/// Monotonically increasing position of an entry in the replicated log.
///
/// Assigned by the leader at proposal time. Two entries with the same
/// `LogIndex` on different nodes are guaranteed to have identical content
/// (log matching property).
#[derive(Clone, Copy, Debug, PartialEq, Eq, Structural, PartialOrd, Ord, Hash)]
pub struct LogIndex(pub u64);

/// Election term. Increments each time a new leader is elected.
///
/// A higher term always supersedes a lower one. Entries from an earlier
/// term that were not committed before a leadership change will be
/// overwritten by the new leader.
#[derive(Clone, Copy, Debug, PartialEq, Eq, Structural, PartialOrd, Ord, Hash)]
pub struct Term(pub u64);

/// Opaque serialised bytes representing a storage engine operation.
///
/// The consensus layer replicates this payload without interpreting its
/// contents.
#[derive(Hash, Clone, Debug)]
pub struct Payload(pub Vec<u8>);

/// A single entry in the replicated log.
#[derive(Hash, Clone, Debug)]
pub struct LogEntry {
    /// The term in which this entry was proposed.
    pub term: Term,
    /// The position of this entry in the log.
    pub log_index: LogIndex,
    /// The node that originated this entry.
    pub node_id: NodeId,
    /// Serialised storage engine operation — opaque to the consensus layer.
    pub payload: Payload,
}

} // verus!
