//! The order of timestamps and row identifiers, as the `<` family of
//! operators sees it.

use core::cmp::Ordering;

use vstd::prelude::*;
use vstd::std_specs::cmp::PartialOrdSpec;

use crate::hlc::HLCTimestamp;
use crate::identity::RowId;

verus! {

impl PartialOrd for HLCTimestamp {
    /// Lexicographic: `physical` first, then `logical`.
    fn partial_cmp(&self, other: &HLCTimestamp) -> (r: Option<Ordering>) {
        if self.physical < other.physical {
            Some(Ordering::Less)
        } else if self.physical > other.physical {
            Some(Ordering::Greater)
        } else if self.logical < other.logical {
            Some(Ordering::Less)
        } else if self.logical > other.logical {
            Some(Ordering::Greater)
        } else {
            Some(Ordering::Equal)
        }
    }
}

impl vstd::std_specs::cmp::PartialOrdSpecImpl for HLCTimestamp {
    open spec fn obeys_partial_cmp_spec() -> bool {
        true
    }

    open spec fn partial_cmp_spec(&self, other: &HLCTimestamp) -> Option<Ordering> {
        if self.before(*other) {
            Some(Ordering::Less)
        } else if other.before(*self) {
            Some(Ordering::Greater)
        } else {
            Some(Ordering::Equal)
        }
    }
}

impl PartialOrd for RowId {
    /// Timestamp first, then node id.
    fn partial_cmp(&self, other: &RowId) -> (r: Option<Ordering>) {
        if self.timestamp < other.timestamp {
            Some(Ordering::Less)
        } else if other.timestamp < self.timestamp {
            Some(Ordering::Greater)
        } else if self.node_id.0 < other.node_id.0 {
            Some(Ordering::Less)
        } else if self.node_id.0 > other.node_id.0 {
            Some(Ordering::Greater)
        } else {
            Some(Ordering::Equal)
        }
    }
}

impl vstd::std_specs::cmp::PartialOrdSpecImpl for RowId {
    open spec fn obeys_partial_cmp_spec() -> bool {
        true
    }

    open spec fn partial_cmp_spec(&self, other: &RowId) -> Option<Ordering> {
        if self.before(*other) {
            Some(Ordering::Less)
        } else if other.before(*self) {
            Some(Ordering::Greater)
        } else {
            Some(Ordering::Equal)
        }
    }
}

/// Timestamps compare lexicographically (`physical` first, then `logical`),
/// and two timestamps compare equal exactly when they are equal.
pub proof fn lemma_timestamp_comparison(a: HLCTimestamp, b: HLCTimestamp)
    ensures
        a.partial_cmp_spec(&b) == Some(Ordering::Less) <==> (a.physical < b.physical || (
        a.physical == b.physical && a.logical < b.logical)),
        a.partial_cmp_spec(&b) == Some(Ordering::Equal) <==> a == b,
        a.partial_cmp_spec(&b) == Some(Ordering::Greater) <==> b.partial_cmp_spec(&a) == Some(
            Ordering::Less,
        ),
{
}

/// Row identifiers compare timestamp first, then by node id, and compare
/// equal exactly when they are equal.
pub proof fn lemma_row_id_comparison(a: RowId, b: RowId)
    ensures
        a.partial_cmp_spec(&b) == Some(Ordering::Less) <==> (a.timestamp.before(b.timestamp) || (
        a.timestamp == b.timestamp && a.node_id.0 < b.node_id.0)),
        a.partial_cmp_spec(&b) == Some(Ordering::Equal) <==> a == b,
        a.partial_cmp_spec(&b) == Some(Ordering::Greater) <==> b.partial_cmp_spec(&a) == Some(
            Ordering::Less,
        ),
{
}

} // verus!
