//! Replication log positions and terms.

use vstd::prelude::*;

verus! {

/// Monotonically increasing position of an entry in the replication log.
///
/// Assigned by the leader at proposal time. Two entries with the same
/// `LogIndex` on different nodes are guaranteed to have identical content
/// (log matching property).
#[derive(Clone, Copy, Debug, PartialEq, Eq, Structural, PartialOrd, Ord, Hash)]
pub struct LogIndex(pub u64);

/// Election term. Increments each time a new leader is elected.
///
/// A higher term always supersedes a lower one. Entries from an earlier
/// term that were not committed before a leadership change will be
/// overwritten by the new leader.
#[derive(Clone, Copy, Debug, PartialEq, Eq, Structural, PartialOrd, Ord, Hash)]
pub struct Term(pub u64);

} // verus!
