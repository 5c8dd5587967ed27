//! The record store and its temporal queries.

use std::sync::Arc;

use vstd::prelude::*;

use crate::hlc::HLCTimestamp;
use crate::identity::RowId;
use crate::interval::ValidInterval;
use crate::record::{Record, SchemaId};

verus! {

/// Error produced by [`Store`].
#[derive(Debug)]
pub enum StoreError {
    /// The record (schema, row) could not be inserted, for the reason given.
    InsertFailure(SchemaId, RowId, String),
    /// The store could not be queried at the time given.
    QueryAsOfTimeFailure(HLCTimestamp),
    /// The store could not be queried over the interval given.
    RangeQueryFailure(ValidInterval),
}

/// The records a query returns, shared with the store, or the reason it failed.
pub type StoreResultSet = Result<Vec<Arc<Record>>, StoreError>;

/// Contains all operations that can be performed over the store.
pub trait Store {
    /// Inserts a record `r` into the store.
    ///
    /// # Errors
    /// - [`StoreError::InsertFailure`] if the insert operation is not possible.
    fn insert(&mut self, r: Record) -> Result<(), StoreError>;

    /// Queries records that are valid at given time `ts`.
    ///
    /// # Errors
    /// - [`StoreError::QueryAsOfTimeFailure`] if the query is not possible.
    fn query_as_of(&self, ts: HLCTimestamp) -> StoreResultSet;

    /// Queries records that are valid at some time of the interval `valid`.
    ///
    /// # Errors
    /// - [`StoreError::RangeQueryFailure`] if a range query is not possible.
    fn query_range(&self, valid: &ValidInterval) -> StoreResultSet;
}

/// The records that shared handles point to, in order.
pub open spec fn shared_records(v: Seq<Arc<Record>>) -> Seq<Record> {
    v.map_values(|a: Arc<Record>| *a)
}

/// Whether a record is valid at `ts`.
pub open spec fn is_valid_at(ts: HLCTimestamp) -> spec_fn(Record) -> bool {
    |r: Record| r.valid_interval.spec_contains(ts)
}

/// Whether a record's validity overlaps `valid`.
pub open spec fn is_valid_during(valid: ValidInterval) -> spec_fn(Record) -> bool {
    |r: Record| r.valid_interval.spec_overlaps(valid)
}

/// The records of `records` that are valid at `ts`, in their order.
pub open spec fn valid_at(records: Seq<Record>, ts: HLCTimestamp) -> Seq<Record> {
    records.filter(is_valid_at(ts))
}

/// The records of `records` whose validity overlaps `valid`, in their order.
pub open spec fn valid_during(records: Seq<Record>, valid: ValidInterval) -> Seq<Record> {
    records.filter(is_valid_during(valid))
}

/// Calls `Arc::clone`: another handle to the same record.
/// Claimed: the new handle points to the record the argument points to.
#[verifier::external_body]
fn share(r: &Arc<Record>) -> (s: Arc<Record>)
    ensures
        *s == **r,
{
    Arc::clone(r)
}

/// Naive in-memory store. Supports only scan queries.
pub struct MemStore {
    records: Vec<Arc<Record>>,
}

impl View for MemStore {
    type V = Seq<Record>;

    /// The records in insertion order.
    closed spec fn view(&self) -> Seq<Record> {
        shared_records(self.records@)
    }
}

impl MemStore {
    /// Creates empty [`MemStore`] with no records.
    pub fn new() -> (s: Self)
        ensures
            s@ == Seq::<Record>::empty(),
    {
        let s = MemStore { records: Vec::new() };
        assert(s@ =~= Seq::<Record>::empty());
        s
    }
}

/// `Default` yields an empty [`MemStore`].
impl Default for MemStore {
    fn default() -> (s: Self)
        ensures
            s@ == Seq::<Record>::empty(),
    {
        MemStore::new()
    }
}

impl Store for MemStore {
    /// Appends `r`; never fails.
    fn insert(&mut self, r: Record) -> (res: Result<(), StoreError>)
        ensures
            res is Ok,
            final(self)@ == old(self)@.push(r),
    {
        let record = Arc::new(r);
        self.records.push(record);
        assert(self@ =~= old(self)@.push(r));
        Ok(())
    }

    /// Every stored record valid at `ts`, in insertion order; never fails.
    fn query_as_of(&self, ts: HLCTimestamp) -> (res: StoreResultSet)
        ensures
            res matches Ok(v) && shared_records(v@) == valid_at(self@, ts),
    {
        let mut result: Vec<Arc<Record>> = Vec::new();
        let n = self.records.len();
        let mut i: usize = 0;
        while i < n
            invariant
                n == self.records.len(),
                i <= n,
                shared_records(result@) == valid_at(self@.take(i as int), ts),
            decreases n - i,
        {
            proof {
                reveal(Seq::filter);
                assert(self@.take(i + 1).drop_last() =~= self@.take(i as int));
            }
            let record = &self.records[i];
            if record.valid_interval.contains(ts) {
                result.push(share(record));
                assert(shared_records(result@) =~= valid_at(self@.take(i as int), ts).push(self@[i as int]));
            }
            i = i + 1;
        }
        assert(self@.take(n as int) =~= self@);
        Ok(result)
    }

    /// Every stored record whose validity overlaps `valid`, in insertion order; never fails.
    fn query_range(&self, valid: &ValidInterval) -> (res: StoreResultSet)
        ensures
            res matches Ok(v) && shared_records(v@) == valid_during(self@, *valid),
    {
        let mut result: Vec<Arc<Record>> = Vec::new();
        let n = self.records.len();
        let mut i: usize = 0;
        while i < n
            invariant
                n == self.records.len(),
                i <= n,
                shared_records(result@) == valid_during(self@.take(i as int), *valid),
            decreases n - i,
        {
            proof {
                reveal(Seq::filter);
                assert(self@.take(i + 1).drop_last() =~= self@.take(i as int));
            }
            let record = &self.records[i];
            if record.valid_interval.overlaps(valid) {
                result.push(share(record));
                assert(shared_records(result@) =~= valid_during(self@.take(i as int), *valid).push(self@[i as int]));
            }
            i = i + 1;
        }
        assert(self@.take(n as int) =~= self@);
        Ok(result)
    }
}


/// What a point-in-time query returns holds exactly the stored records valid
/// at that time: a record is in the result if and only if it is stored and
/// its interval contains the time.
pub proof fn lemma_valid_at_members(records: Seq<Record>, ts: HLCTimestamp, r: Record)
    ensures
        valid_at(records, ts).contains(r) <==> (records.contains(r) && r.valid_interval.spec_contains(ts)),
{
    let pred = is_valid_at(ts);
    if valid_at(records, ts).contains(r) {
        records.lemma_filter_contains_rev(pred, r);
        let i = choose|i: int| 0 <= i < records.filter(pred).len() && records.filter(pred)[i] == r;
        records.lemma_filter_pred(pred, i);
    }
    if records.contains(r) && r.valid_interval.spec_contains(ts) {
        let i = choose|i: int| 0 <= i < records.len() && records[i] == r;
        records.lemma_filter_contains(pred, i);
    }
}

/// What a range query returns holds exactly the stored records whose
/// validity overlaps the queried interval.
pub proof fn lemma_valid_during_members(records: Seq<Record>, valid: ValidInterval, r: Record)
    ensures
        valid_during(records, valid).contains(r) <==> (records.contains(r) && r.valid_interval.spec_overlaps(valid)),
{
    let pred = is_valid_during(valid);
    if valid_during(records, valid).contains(r) {
        records.lemma_filter_contains_rev(pred, r);
        let i = choose|i: int| 0 <= i < records.filter(pred).len() && records.filter(pred)[i] == r;
        records.lemma_filter_pred(pred, i);
    }
    if records.contains(r) && r.valid_interval.spec_overlaps(valid) {
        let i = choose|i: int| 0 <= i < records.len() && records[i] == r;
        records.lemma_filter_contains(pred, i);
    }
}

/// Inserting a record and then querying: the record comes last in the
/// answer of every point-in-time query at a time it is valid at, and the
/// answer of every other query is unchanged.
pub proof fn lemma_insert_then_query(records: Seq<Record>, r: Record, ts: HLCTimestamp, valid: ValidInterval)
    ensures
        valid_at(records.push(r), ts) == (if r.valid_interval.spec_contains(ts) {
            valid_at(records, ts).push(r)
        } else {
            valid_at(records, ts)
        }),
        valid_during(records.push(r), valid) == (if r.valid_interval.spec_overlaps(valid) {
            valid_during(records, valid).push(r)
        } else {
            valid_during(records, valid)
        }),
{
    reveal(Seq::filter);
    assert(records.push(r).drop_last() =~= records);
}

/// A record that a point-in-time query returns is also returned by every
/// range query over an interval that holds that time.
pub proof fn lemma_as_of_within_range(records: Seq<Record>, ts: HLCTimestamp, valid: ValidInterval, r: Record)
    requires
        valid.spec_contains(ts),
        valid_at(records, ts).contains(r),
    ensures
        valid_during(records, valid).contains(r),
{
    lemma_valid_at_members(records, ts, r);
    crate::interval::lemma_overlap_is_shared_instant(r.valid_interval, valid, ts);
    lemma_valid_during_members(records, valid, r);
}

} // verus!
