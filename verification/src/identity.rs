//! Identity of nodes and records.

use vstd::prelude::*;
use vstd::string::*;

use crate::hlc::HLCTimestamp;
use crate::text::{decimal, push_decimal};

verus! {

/// A unique identifier for a node in the cluster.
///
/// Wraps a `u64` for type safety — prevents accidental assignment to unrelated integer fields.
/// `NodeId(0)` is a valid identifier; there is no sentinel value.
#[derive(PartialEq, Eq, Structural, Hash, Clone, Copy, Debug, PartialOrd, Ord)]
pub struct NodeId(pub u64);

/// A globally unique identifier for a record, composed of the originating node and its
/// [`HLCTimestamp`] at the time of insertion.
///
/// Ordering is timestamp-first, then node-id — enabling efficient time-range scans over
/// sorted indexes. Constructed by the storage engine via [`RowId::new`].
#[derive(PartialEq, Eq, Structural, Hash, Clone, Copy, Debug, Ord)]
pub struct RowId {
    pub timestamp: HLCTimestamp,
    pub node_id: NodeId,
}

impl NodeId {
    /// The text of a node identifier: `"node:<id>"`.
    pub open spec fn display_text(self) -> Seq<char> {
        "node:"@ + decimal(self.0 as nat)
    }

    /// Renders this identifier as `"node:<id>"`.
    pub fn to_string(&self) -> (s: String)
        ensures
            s@ == self.display_text(),
    {
        let mut out = String::from_str("node:");
        push_decimal(&mut out, self.0);
        out
    }
}

impl RowId {
    /// Creates a new [`RowId`] from a [`HLCTimestamp`] and the [`NodeId`] of the writing node.
    pub fn new(timestamp: HLCTimestamp, node_id: NodeId) -> (r: RowId)
        ensures
            r.timestamp == timestamp,
            r.node_id == node_id,
    {
        Self { timestamp, node_id }
    }

    /// Strict order of row identifiers: by timestamp first, then by node id.
    pub open spec fn before(self, other: RowId) -> bool {
        ||| self.timestamp.before(other.timestamp)
        ||| (self.timestamp == other.timestamp && self.node_id.0 < other.node_id.0)
    }

    /// The text of a row identifier: `"rowId:<timestamp>:<node>"`.
    pub open spec fn display_text(self) -> Seq<char> {
        "rowId:"@ + self.timestamp.display_text(self.timestamp.utc_text()) + ":"@
            + self.node_id.display_text()
    }

    /// Renders this identifier as `"rowId:<timestamp>:node:<id>"`.
    pub fn to_string(&self) -> (s: String)
        ensures
            s@ == self.display_text(),
    {
        let mut out = String::from_str("rowId:");
        let ts = self.timestamp.to_string();
        out.append(ts.as_str());
        out.append(":");
        let node = self.node_id.to_string();
        out.append(node.as_str());
        out
    }
}

} // verus!
