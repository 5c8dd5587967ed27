//! Applying committed log entries.

use vstd::prelude::*;

use crate::consensus::log::LogEntry;

verus! {

/// Why a committed entry could not be applied.
#[derive(Debug)]
pub enum StateMachineError {
    /// Applying the entry failed, for the reason given.
    ApplyFailed(String),
}

/// The replicated state machine that committed entries are applied to.
pub trait StateMachine: Send + Sync {
    /// Applies a committed `entry`.
    fn apply(&self, entry: LogEntry) -> Result<(), StateMachineError>;
}

} // verus!
