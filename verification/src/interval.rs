//! Half-open valid-time intervals.

use vstd::prelude::*;
use vstd::string::*;

use crate::hlc::HLCTimestamp;

verus! {

/// A half-open time interval `[valid_from, valid_to)` over [`HLCTimestamp`].
///
/// Used to represent both storage records and query range expressions.
///
/// - `valid_to = HLCTimestamp::max_value()` means the record is currently valid with no known end.
/// - `valid_from = HLCTimestamp::min_value()` is meaningful only in query range expressions
///   (e.g. "from the beginning of history"). Storage records must carry the actual
///   [`HLCTimestamp`] at which the record became valid.
#[derive(PartialEq, Eq, Structural, PartialOrd, Ord, Debug, Clone, Copy)]
pub struct ValidInterval {
    /// Start of the interval, included. `HLCTimestamp::min_value()` means "from the start of time".
    pub valid_from: HLCTimestamp,
    /// End of the interval, excluded. `HLCTimestamp::max_value()` means "open" / current.
    pub valid_to: HLCTimestamp,
}

/// Errors produced by [`ValidInterval`] operations.
#[derive(Debug)]
pub enum IntervalError {
    /// `valid_from` (first) is after `valid_to` (second).
    InvalidInterval(HLCTimestamp, HLCTimestamp),
}

impl ValidInterval {
    /// The interval's start does not come after its end.
    pub open spec fn well_formed(self) -> bool {
        self.valid_from.not_after(self.valid_to)
    }

    /// `ts` lies in `[valid_from, valid_to)`.
    pub open spec fn spec_contains(self, ts: HLCTimestamp) -> bool {
        self.valid_from.not_after(ts) && ts.before(self.valid_to)
    }

    /// Some timestamp lies in both half-open intervals: the later start
    /// comes before the earlier end.
    pub open spec fn spec_overlaps(self, other: ValidInterval) -> bool {
        &&& self.valid_from.before(self.valid_to)
        &&& other.valid_from.before(other.valid_to)
        &&& self.valid_from.before(other.valid_to)
        &&& other.valid_from.before(self.valid_to)
    }

    /// Creates a new ValidInterval.
    ///
    /// `from` should be less than or equal to `to`.
    ///
    /// # Errors
    ///
    /// Returns `Err(IntervalError::InvalidInterval(from, to))` if `from > to`.
    pub fn new(from: HLCTimestamp, to: HLCTimestamp) -> (r: Result<Self, IntervalError>)
        ensures
            match r {
                Ok(i) => i.valid_from == from && i.valid_to == to && i.well_formed(),
                Err(IntervalError::InvalidInterval(f, t)) => f == from && t == to,
            },
            r is Ok <==> from.not_after(to),
    {
        if to < from {
            Err(IntervalError::InvalidInterval(from, to))
        } else {
            Ok(Self { valid_from: from, valid_to: to })
        }
    }

    /// Creates a new open ValidInterval.
    ///
    /// `valid_to` is set to [`HLCTimestamp::max_value`]: the interval is currently valid,
    /// with no known end.
    pub fn open(from: HLCTimestamp) -> (i: Self)
        ensures
            i.valid_from == from,
            i.valid_to == HLCTimestamp::spec_max(),
            i.well_formed(),
    {
        Self { valid_from: from, valid_to: HLCTimestamp::max_value() }
    }

    /// Whether `ts` lies in `[valid_from, valid_to)`.
    pub fn contains(&self, ts: HLCTimestamp) -> (b: bool)
        ensures
            b == self.spec_contains(ts),
    {
        self.valid_from <= ts && ts < self.valid_to
    }

    /// Whether this interval and `other` share a timestamp.
    pub fn overlaps(&self, other: &ValidInterval) -> (b: bool)
        ensures
            b == self.spec_overlaps(*other),
    {
        self.valid_from < self.valid_to && other.valid_from < other.valid_to && self.valid_from
            < other.valid_to && other.valid_from < self.valid_to
    }

    /// The text of an interval: `"[<valid_from>, <valid_to>)"`.
    pub open spec fn display_text(self) -> Seq<char> {
        "["@ + self.valid_from.display_text(self.valid_from.utc_text()) + ", "@
            + self.valid_to.display_text(self.valid_to.utc_text()) + ")"@
    }

    /// Renders this interval as `"[<valid_from>, <valid_to>)"`.
    pub fn to_string(&self) -> (s: String)
        ensures
            s@ == self.display_text(),
    {
        let mut out = String::from_str("[");
        let from = self.valid_from.to_string();
        out.append(from.as_str());
        out.append(", ");
        let to = self.valid_to.to_string();
        out.append(to.as_str());
        out.append(")");
        out
    }
}

/// Overlap is symmetric, and two intervals overlap exactly when some
/// timestamp lies in both of them.
pub proof fn lemma_overlap_is_shared_instant(a: ValidInterval, b: ValidInterval, ts: HLCTimestamp)
    ensures
        a.spec_overlaps(b) == b.spec_overlaps(a),
        a.spec_contains(ts) && b.spec_contains(ts) ==> a.spec_overlaps(b),
        a.spec_overlaps(b) ==> exists|w: HLCTimestamp| a.spec_contains(w) && b.spec_contains(w),
{
    if a.spec_overlaps(b) {
        let w = if a.valid_from.before(b.valid_from) {
            b.valid_from
        } else {
            a.valid_from
        };
        assert(a.spec_contains(w) && b.spec_contains(w));
    }
}

/// An open interval holds every timestamp from its start on, except the
/// latest timestamp itself, which as an end means "no known end".
pub proof fn lemma_open_interval_contains(from: HLCTimestamp, ts: HLCTimestamp)
    ensures
        (ValidInterval { valid_from: from, valid_to: HLCTimestamp::spec_max() }).spec_contains(ts)
            <==> (from.not_after(ts) && ts != HLCTimestamp::spec_max()),
{
}

/// A one-point interval `[t, t)` is well formed and holds no timestamp.
pub proof fn lemma_point_interval_is_empty(t: HLCTimestamp, ts: HLCTimestamp)
    ensures
        (ValidInterval { valid_from: t, valid_to: t }).well_formed(),
        !(ValidInterval { valid_from: t, valid_to: t }).spec_contains(ts),
{
}

} // verus!
