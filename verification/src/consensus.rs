//! The interface between the consensus layer and the storage engine.

pub mod consensus;
pub mod log;
pub mod state_machine;
pub mod types;
