//! Write-ahead-log entry headers and on-disk frames.

use vstd::prelude::*;

use crate::identity::NodeId;
use crate::replication::{LogIndex, Term};

verus! {

/// CRC 32 to verify the data integrity.
#[derive(PartialEq, Eq, Structural, Debug)]
pub struct CRC(pub u32);

/// The replication metadata header written to the WAL before each record.
/// On a single node `term` is 0 and `log_index` is monotonically increasing.
#[derive(Debug)]
pub struct WalEntry {
    /// The replication term in which this entry was proposed.
    pub term: Term,
    /// The position of this entry in the replication log.
    pub log_index: LogIndex,
    /// The node that originated this entry.
    pub node_id: NodeId,
}

/// The on-disk envelope for a single WAL record.
/// Used for recovery: length is scanned to find entry boundaries, crc detects corruption.
#[derive(Debug)]
pub struct WalFrame {
    /// Data only length.
    pub length: u32,
    /// CRC for protection from the data corruption.
    pub crc: CRC,
    /// Serialized data.
    pub data: Vec<u8>,
}

} // verus!
