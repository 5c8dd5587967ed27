//! Proposing entries to the replicated log.

use vstd::prelude::*;

use crate::consensus::log::LogEntry;
use crate::replication::LogIndex;

verus! {

/// Why a proposal was not accepted.
#[derive(Debug, PartialEq, Eq, Structural)]
pub enum ConsensusError {
    /// This node is not the leader.
    NotLeader,
    /// Consensus is unavailable.
    Unavailable,
}

/// A consensus protocol that orders proposed entries in a replicated log.
pub trait Consensus: Send + Sync {
    /// Proposes `entry` for the log and returns the position it was given.
    fn propose(&self, entry: LogEntry) -> Result<LogIndex, ConsensusError>;
}

} // verus!
