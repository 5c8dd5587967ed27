//! Hybrid logical clock timestamps and the clock that issues them.

use vstd::prelude::*;
use vstd::string::*;

use crate::text::{decimal, push_decimal};

verus! {

/// A Hybrid Logical Clock timestamp providing causal ordering across distributed nodes.
///
/// Combines a physical component (wall clock in milliseconds) with a logical counter
/// to guarantee strict monotonicity even when the wall clock does not advance between
/// two events on the same node, or when events arrive from nodes with clock skew.
///
/// Ordering is lexicographic: `physical` is compared first, then `logical`
/// (see [`HLCTimestamp::before`]).
#[derive(Debug, Clone, Copy, PartialEq, Eq, Structural, Ord, Hash)]
pub struct HLCTimestamp {
    /// System time in milliseconds since the Unix epoch.
    pub physical: u64,
    /// Logical counter ordering events that share one millisecond.
    pub logical: u16,
}

impl HLCTimestamp {
    /// Creates a new `HLCTimestamp` from a physical time (milliseconds since Unix epoch)
    /// and a logical counter.
    pub fn new(physical: u64, logical: u16) -> (t: HLCTimestamp)
        ensures
            t.physical == physical,
            t.logical == logical,
    {
        HLCTimestamp { physical, logical }
    }

    /// The timestamp with the given parts.
    pub open spec fn new_spec(physical: u64, logical: u16) -> HLCTimestamp {
        HLCTimestamp { physical, logical }
    }

    /// The earliest timestamp, `(0, 0)`: the Unix epoch with logical counter zero.
    /// As an interval start it means "from the beginning of history".
    pub open spec fn spec_min() -> HLCTimestamp {
        HLCTimestamp { physical: 0, logical: 0 }
    }

    /// The latest timestamp, `(u64::MAX, u16::MAX)`.
    /// As an interval end it means "currently valid, no known end".
    pub open spec fn spec_max() -> HLCTimestamp {
        HLCTimestamp { physical: u64::MAX, logical: u16::MAX }
    }

    /// The earliest timestamp, `(0, 0)`.
    pub fn min_value() -> (t: HLCTimestamp)
        ensures
            t == HLCTimestamp::spec_min(),
    {
        HLCTimestamp { physical: 0, logical: 0 }
    }

    /// The latest timestamp, `(u64::MAX, u16::MAX)`.
    pub fn max_value() -> (t: HLCTimestamp)
        ensures
            t == HLCTimestamp::spec_max(),
    {
        HLCTimestamp { physical: u64::MAX, logical: u16::MAX }
    }

    /// Strict lexicographic order: `physical` first, then `logical`.
    pub open spec fn before(self, other: HLCTimestamp) -> bool {
        ||| self.physical < other.physical
        ||| (self.physical == other.physical && self.logical < other.logical)
    }

    /// Non-strict lexicographic order.
    pub open spec fn not_after(self, other: HLCTimestamp) -> bool {
        self.before(other) || self == other
    }
}

/// The one `strftime` pattern the library renders UTC instants with:
/// ISO 8601 with millisecond precision and a `Z` suffix.
pub const UTC_MILLIS_PATTERN: &'static str = "%Y-%m-%dT%H:%M:%S%.3fZ";

/// The earliest millisecond instant chrono represents: the start of
/// January 1 of year -262143, `(days_from_ce(-262143-01-01) - 719_163) * 86_400_000`.
pub const UTC_MILLIS_MIN: i64 = -8_334_601_228_800_000;

/// The latest millisecond instant chrono represents: the last millisecond of
/// December 31 of year 262142.
pub const UTC_MILLIS_MAX: i64 = 8_210_266_876_799_999;

/// What chrono renders for the UTC instant `millis` milliseconds after the
/// Unix epoch under the `strftime` pattern `pattern`, or `None` where chrono
/// has no such instant.
pub uninterp spec fn utc_millis_text(millis: i64, pattern: Seq<char>) -> Option<Seq<char>>;

/// Calls `chrono::DateTime::<Utc>::from_timestamp_millis` and, where it gives
/// an instant, renders it with chrono's `format` under `pattern`.
/// Claimed: the result is exactly `utc_millis_text(millis, pattern@)`, a
/// function of the two arguments alone; what that text is (chrono's
/// calendar arithmetic and formatting) is left unsaid. Also claimed: chrono
/// has an instant exactly for `UTC_MILLIS_MIN <= millis <= UTC_MILLIS_MAX`.
/// In chrono's source `from_timestamp_millis` splits `millis` into Euclidean
/// seconds and nanoseconds and `from_timestamp` rejects exactly the day
/// numbers whose year lies outside `MIN_YEAR..=MAX_YEAR` (-262143..=262142);
/// the two bounds are the first and last millisecond of that range. The pattern is
/// restricted to the library's own, since chrono's rendering panics on an
/// invalid pattern.
#[verifier::external_body]
fn utc_from_millis_text(millis: i64, pattern: &str) -> (r: Option<String>)
    requires
        pattern@ == UTC_MILLIS_PATTERN@,
    ensures
        match r {
            Some(text) => utc_millis_text(millis, pattern@) == Some(text@),
            None => utc_millis_text(millis, pattern@) is None,
        },
        r is Some <==> UTC_MILLIS_MIN <= millis <= UTC_MILLIS_MAX,
{
    match chrono::DateTime::from_timestamp_millis(millis) {
        Some(instant) => Some(instant.format(pattern).to_string()),
        None => None,
    }
}

impl HLCTimestamp {
    /// The text of this timestamp, given what the calendar rendering of its
    /// physical part came to (`None` where it has none): `"<utc>.<logical>"`,
    /// or `"Invalid time: <physical>.<logical>"`.
    pub open spec fn display_text(self, utc: Option<Seq<char>>) -> Seq<char> {
        match utc {
            Some(text) => text + "."@ + decimal(self.logical as nat),
            None => "Invalid time: "@ + decimal(self.physical as nat) + "."@ + decimal(self.logical as nat),
        }
    }

    /// The calendar rendering of the physical part, where chrono gives one
    /// (for `physical <= UTC_MILLIS_MAX`, see [`HLCTimestamp::to_string`]).
    pub open spec fn utc_text(self) -> Option<Seq<char>> {
        if self.physical <= i64::MAX {
            utc_millis_text(self.physical as i64, UTC_MILLIS_PATTERN@)
        } else {
            None
        }
    }

    /// Renders this timestamp given the calendar rendering of its physical
    /// part (`None` where there is none).
    pub fn render(&self, utc: Option<String>) -> (s: String)
        ensures
            s@ == self.display_text(
                match utc {
                    Some(text) => Some(text@),
                    None => None,
                },
            ),
    {
        match utc {
            Some(text) => {
                let mut out = text;
                out.append(".");
                push_decimal(&mut out, self.logical as u64);
                out
            },
            None => {
                let mut out = String::from_str("Invalid time: ");
                push_decimal(&mut out, self.physical);
                out.append(".");
                push_decimal(&mut out, self.logical as u64);
                out
            },
        }
    }

    /// Renders this timestamp as `"<ISO 8601 UTC, milliseconds>.<logical>"`,
    /// e.g. `2026-03-10T18:27:44.000Z.3`, or as
    /// `"Invalid time: <physical>.<logical>"` where the physical part is no
    /// representable instant.
    pub fn to_string(&self) -> (s: String)
        ensures
            s@ == self.display_text(self.utc_text()),
            self.utc_text() is Some <==> self.physical <= UTC_MILLIS_MAX,
    {
        let utc = if self.physical <= i64::MAX as u64 {
            utc_from_millis_text(self.physical as i64, UTC_MILLIS_PATTERN)
        } else {
            None
        };
        self.render(utc)
    }
}

/// The error the system clock reports when it stands before the Unix epoch.
#[verifier::external_type_specification]
#[verifier::external_body]
pub struct ExSystemTimeError(std::time::SystemTimeError);

/// Errors produced by [`HLC`] operations.
#[derive(Debug)]
pub enum HLCError {
    /// The logical counter reached `u16::MAX` and cannot be incremented.
    /// The node is processing more than 65 535 events within a single millisecond.
    LogicalOverflow(HLCTimestamp),
    /// The system clock returned an error (e.g. time went before the Unix epoch).
    SystemTimeError(std::time::SystemTimeError),
}

/// The logical counter that follows `t`'s within its millisecond, or the
/// overflow error carrying `t` where the counter is exhausted.
pub open spec fn spec_increment_logical(t: HLCTimestamp) -> Result<u16, HLCError> {
    if t.logical < u16::MAX {
        Ok((t.logical + 1) as u16)
    } else {
        Err(HLCError::LogicalOverflow(t))
    }
}

/// The outcome of a local event on a clock whose last timestamp is `last`,
/// with the wall clock reading `system_time`.
pub open spec fn spec_tick(last: HLCTimestamp, system_time: u64) -> Result<HLCTimestamp, HLCError> {
    if last.physical >= system_time {
        if last.logical < u16::MAX {
            Ok(HLCTimestamp { physical: last.physical, logical: (last.logical + 1) as u16 })
        } else {
            Err(HLCError::LogicalOverflow(last))
        }
    } else {
        Ok(HLCTimestamp { physical: system_time, logical: 0 })
    }
}

/// The outcome of receiving a message stamped `ts` on a clock whose last
/// timestamp is `last`, with the wall clock reading `system_time`.
pub open spec fn spec_receive(last: HLCTimestamp, system_time: u64, ts: HLCTimestamp) -> Result<
    HLCTimestamp,
    HLCError,
> {
    let st = system_time;
    let tt = last.physical;
    let ts1 = ts.physical;
    if st > tt && st > ts1 {
        Ok(HLCTimestamp { physical: st, logical: 0 })
    } else if tt >= st && tt > ts1 {
        match spec_increment_logical(last) {
            Ok(l) => Ok(HLCTimestamp { physical: tt, logical: l }),
            Err(e) => Err(e),
        }
    } else if ts1 >= st && ts1 > tt {
        match spec_increment_logical(ts) {
            Ok(l) => Ok(HLCTimestamp { physical: ts1, logical: l }),
            Err(e) => Err(e),
        }
    } else {
        let top: u16 = if last.logical >= ts.logical { last.logical } else { ts.logical };
        if top < u16::MAX {
            Ok(HLCTimestamp { physical: tt, logical: (top + 1) as u16 })
        } else {
            Err(HLCError::LogicalOverflow(HLCTimestamp { physical: ts1, logical: u16::MAX }))
        }
    }
}

/// The state a clock keeps after an operation that came to `r`: the new
/// timestamp on success, the previous one on failure.
pub open spec fn spec_after(last: HLCTimestamp, r: Result<HLCTimestamp, HLCError>) -> HLCTimestamp {
    match r {
        Ok(t) => t,
        Err(_) => last,
    }
}

/// The physical part a clock takes on receiving a message: the largest of
/// the wall clock reading, its own last physical part and the message's.
pub open spec fn receive_physical(last: HLCTimestamp, system_time: u64, ts: HLCTimestamp) -> u64 {
    let m: u64 = if last.physical >= ts.physical { last.physical } else { ts.physical };
    if system_time > m { system_time } else { m }
}

/// The physical part a clock takes on a local event: the larger of the wall
/// clock reading and its own last physical part.
pub open spec fn tick_physical(last: HLCTimestamp, system_time: u64) -> u64 {
    if system_time > last.physical { system_time } else { last.physical }
}

/// `t` comes strictly after both `a` and `b`.
pub open spec fn after_both(t: HLCTimestamp, a: HLCTimestamp, b: HLCTimestamp) -> bool {
    a.before(t) && b.before(t)
}

/// `t` has the least logical counter among the timestamps with its physical
/// part that come strictly after both `a` and `b`.
pub open spec fn least_after_both(t: HLCTimestamp, a: HLCTimestamp, b: HLCTimestamp) -> bool {
    &&& after_both(t, a, b)
    &&& forall|l: u16| #[trigger]
        after_both(HLCTimestamp { physical: t.physical, logical: l }, a, b) ==> t.logical <= l
}

/// Some timestamp with physical part `p` comes strictly after both `a` and
/// `b`: neither of them has physical part `p` with an exhausted counter
/// (given that neither has a physical part beyond `p`).
pub open spec fn room_after_both(p: u64, a: HLCTimestamp, b: HLCTimestamp) -> bool {
    !(a.physical == p && a.logical == u16::MAX) && !(b.physical == p && b.logical == u16::MAX)
}

/// A Hybrid Logical Clock.
///
/// Keeps the last issued [`HLCTimestamp`] and produces strictly monotonic
/// timestamps on every call to [`HLC::now`] and [`HLC::observe`]. The wall
/// clock reading is handed in by the caller, so every decision the clock
/// makes is a function of its state and its arguments.
pub struct HLC {
    last: HLCTimestamp,
}

impl View for HLC {
    type V = HLCTimestamp;

    /// The last timestamp the clock issued or was set to.
    closed spec fn view(&self) -> HLCTimestamp {
        self.last
    }
}

/// `Default` yields `(0, 0)` — the Unix epoch with logical counter zero.
/// This is the earliest valid `HLCTimestamp`, not a sentinel for "uninitialised".
impl Default for HLCTimestamp {
    fn default() -> (t: HLCTimestamp)
        ensures
            t == HLCTimestamp::spec_min(),
    {
        HLCTimestamp::min_value()
    }
}

/// `Default` yields a clock at the zero timestamp.
impl Default for HLC {
    fn default() -> (c: HLC)
        ensures
            c@ == HLCTimestamp::spec_min(),
    {
        HLC::new()
    }
}

impl HLC {
    /// Creates a new [`HLC`] initialised at the zero timestamp.
    /// The first call to [`HLC::now`] will advance it to the wall clock time.
    pub fn new() -> (c: HLC)
        ensures
            c@ == HLCTimestamp::spec_min(),
    {
        HLC { last: HLCTimestamp { physical: 0, logical: 0 } }
    }

    /// The last timestamp the clock issued or was set to.
    pub fn last(&self) -> (t: HLCTimestamp)
        ensures
            t == self@,
    {
        self.last
    }

    /// Sets the last issued timestamp, as a restart from a persisted clock does.
    pub fn set_time(&mut self, new_time: HLCTimestamp)
        ensures
            final(self)@ == new_time,
    {
        self.last = new_time;
    }

    /// The logical counter following `t`'s, or the overflow error carrying `t`.
    fn increment_logical(t: &HLCTimestamp) -> (r: Result<u16, HLCError>)
        ensures
            r == spec_increment_logical(*t),
    {
        if t.logical < u16::MAX {
            Ok(t.logical + 1u16)
        } else {
            Err(HLCError::LogicalOverflow(*t))
        }
    }

    /// Returns a new [`HLCTimestamp`] that is strictly greater than all previously
    /// returned timestamps and at least the wall clock reading `system_time`
    /// (milliseconds since the Unix epoch).
    ///
    /// # Errors
    /// - [`HLCError::LogicalOverflow`] carrying the last timestamp, if the wall
    ///   clock has not passed it and its logical counter is at `u16::MAX`.
    pub fn now(&mut self, system_time: u64) -> (r: Result<HLCTimestamp, HLCError>)
        ensures
            r == spec_tick(old(self)@, system_time),
            final(self)@ == spec_after(old(self)@, r),
            r matches Ok(t) ==> old(self)@.before(t) && t.physical >= system_time,
            r is Err <==> (old(self)@.physical >= system_time && old(self)@.logical == u16::MAX),
            r matches Ok(t) ==> t.physical == tick_physical(old(self)@, system_time)
                && least_after_both(t, old(self)@, old(self)@),
            r matches Err(e) ==> e == HLCError::LogicalOverflow(
                HLCTimestamp::new_spec(tick_physical(old(self)@, system_time), u16::MAX),
            ),
    {
        proof {
            lemma_tick_is_least_after(old(self)@, system_time);
        }
        let physical = self.last.physical;
        let logical = self.last.logical;
        let result = if physical >= system_time {
            if logical < u16::MAX {
                Ok(HLCTimestamp::new(physical, logical + 1))
            } else {
                Err(HLCError::LogicalOverflow(self.last))
            }
        } else {
            Ok(HLCTimestamp::new(system_time, 0))
        };
        if let Ok(t) = &result {
            self.last = *t;
        }
        result
    }

    /// Advances the clock after receiving a message carrying timestamp `ts`,
    /// with the wall clock reading `system_time`.
    ///
    /// Ensures the local clock is strictly greater than both the previous local
    /// timestamp and the received `ts`, maintaining causal ordering across nodes.
    /// Call this on every inbound message before processing it.
    ///
    /// # Errors
    /// - [`HLCError::LogicalOverflow`] if the logical counter would exceed `u16::MAX`.
    pub fn observe(&mut self, system_time: u64, ts: HLCTimestamp) -> (r: Result<HLCTimestamp, HLCError>)
        ensures
            r == spec_receive(old(self)@, system_time, ts),
            final(self)@ == spec_after(old(self)@, r),
            r matches Ok(t) ==> old(self)@.before(t) && ts.before(t) && t.physical >= system_time,
            r matches Ok(t) ==> t.physical == receive_physical(old(self)@, system_time, ts)
                && least_after_both(t, old(self)@, ts),
            r is Err <==> !room_after_both(receive_physical(old(self)@, system_time, ts), old(self)@, ts),
            r matches Err(e) ==> e == HLCError::LogicalOverflow(
                HLCTimestamp::new_spec(receive_physical(old(self)@, system_time, ts), u16::MAX),
            ),
    {
        proof {
            lemma_receive_is_least_after_both(old(self)@, system_time, ts);
        }
        let st = system_time;
        let tt = self.last.physical;
        let ts1 = ts.physical;
        let result = if st > tt && st > ts1 {
            Ok(HLCTimestamp::new(st, 0))
        } else if tt >= st && tt > ts1 {
            match HLC::increment_logical(&self.last) {
                Ok(l) => Ok(HLCTimestamp::new(tt, l)),
                Err(e) => Err(e),
            }
        } else if ts1 >= st && ts1 > tt {
            match HLC::increment_logical(&ts) {
                Ok(l) => Ok(HLCTimestamp::new(ts1, l)),
                Err(e) => Err(e),
            }
        } else {
            let top: u16 = if self.last.logical >= ts.logical {
                self.last.logical
            } else {
                ts.logical
            };
            if top == u16::MAX {
                Err(HLCError::LogicalOverflow(HLCTimestamp::new(ts.physical, u16::MAX)))
            } else {
                Ok(HLCTimestamp::new(self.last.physical, top + 1))
            }
        };
        if let Ok(t) = &result {
            self.last = *t;
        }
        result
    }
}


/// Every timestamp lies between the earliest and the latest timestamp, and
/// the timestamp order is a strict total order: irreflexive, asymmetric,
/// transitive, and any two timestamps are equal or ordered one way.
pub proof fn lemma_timestamp_order(a: HLCTimestamp, b: HLCTimestamp, c: HLCTimestamp)
    ensures
        HLCTimestamp::spec_min().not_after(a),
        a.not_after(HLCTimestamp::spec_max()),
        !a.before(a),
        a.before(b) ==> !b.before(a),
        a.before(b) && b.before(c) ==> a.before(c),
        a.before(b) || a == b || b.before(a),
{
}

/// An event that advances a clock: a local event seen at a wall clock
/// reading, or a message stamped with a timestamp received at a reading.
pub enum ClockEvent {
    /// A local event ([`HLC::now`]) at the given wall clock reading.
    Local(u64),
    /// A message carrying the timestamp, received ([`HLC::observe`]) at the
    /// given wall clock reading.
    Receive(u64, HLCTimestamp),
}

/// The outcome of `event` on a clock whose last timestamp is `last`.
pub open spec fn spec_step(last: HLCTimestamp, event: ClockEvent) -> Result<HLCTimestamp, HLCError> {
    match event {
        ClockEvent::Local(system_time) => spec_tick(last, system_time),
        ClockEvent::Receive(system_time, ts) => spec_receive(last, system_time, ts),
    }
}

/// The timestamps a clock starting at `last` issues over `events`, in order
/// (events that fail issue none).
pub open spec fn spec_issued(last: HLCTimestamp, events: Seq<ClockEvent>) -> Seq<HLCTimestamp>
    decreases events.len(),
{
    if events.len() == 0 {
        Seq::empty()
    } else {
        let rest = events.subrange(1, events.len() as int);
        match spec_step(last, events[0]) {
            Ok(t) => seq![t] + spec_issued(t, rest),
            Err(_) => spec_issued(last, rest),
        }
    }
}

/// The last timestamp of a clock starting at `last` after `events`.
pub open spec fn spec_final(last: HLCTimestamp, events: Seq<ClockEvent>) -> HLCTimestamp
    decreases events.len(),
{
    if events.len() == 0 {
        last
    } else {
        spec_final(spec_after(last, spec_step(last, events[0])), events.subrange(1, events.len() as int))
    }
}

/// A successful event issues a timestamp strictly after the clock's last
/// one, not before the wall clock reading, and, for a received message,
/// strictly after the message's timestamp.
pub proof fn lemma_step_advances(last: HLCTimestamp, event: ClockEvent)
    ensures
        spec_step(last, event) matches Ok(t) ==> {
            &&& last.before(t)
            &&& match event {
                ClockEvent::Local(st) => t.physical >= st,
                ClockEvent::Receive(st, ts) => t.physical >= st && ts.before(t),
            }
        },
{
}

/// Strict monotonicity: over any sequence of local events and received
/// messages, the timestamps a clock issues are strictly increasing, all come
/// strictly after the clock's starting timestamp, and none comes after the
/// clock's final timestamp. In particular no two of them are equal.
pub proof fn lemma_issued_strictly_increasing(last: HLCTimestamp, events: Seq<ClockEvent>)
    ensures
        forall|i: int, j: int|
            0 <= i < j < spec_issued(last, events).len() ==> #[trigger] spec_issued(last, events)[i].before(
                #[trigger] spec_issued(last, events)[j],
            ),
        forall|i: int|
            0 <= i < spec_issued(last, events).len() ==> last.before(#[trigger] spec_issued(last, events)[i]),
        forall|i: int|
            0 <= i < spec_issued(last, events).len() ==> (#[trigger] spec_issued(last, events)[i]).not_after(
                spec_final(last, events),
            ),
        last.not_after(spec_final(last, events)),
    decreases events.len(),
{
    if events.len() > 0 {
        let rest = events.subrange(1, events.len() as int);
        lemma_step_advances(last, events[0]);
        match spec_step(last, events[0]) {
            Ok(t) => {
                lemma_issued_strictly_increasing(t, rest);
                let tail = spec_issued(t, rest);
                let all = spec_issued(last, events);
                assert(all =~= seq![t] + tail);
                assert forall|i: int, j: int| 0 <= i < j < all.len() implies #[trigger] all[i].before(#[trigger] all[j]) by {
                    if i == 0 {
                        assert(all[j] == tail[j - 1]);
                        assert(t.before(tail[j - 1]));
                    } else {
                        assert(all[i] == tail[i - 1]);
                        assert(all[j] == tail[j - 1]);
                    }
                }
                assert forall|i: int| 0 <= i < all.len() implies last.before(#[trigger] all[i]) by {
                    if i > 0 {
                        assert(all[i] == tail[i - 1]);
                        assert(t.before(tail[i - 1]));
                    }
                }
                assert forall|i: int| 0 <= i < all.len() implies (#[trigger] all[i]).not_after(spec_final(last, events)) by {
                    if i > 0 {
                        assert(all[i] == tail[i - 1]);
                    }
                }
            },
            Err(_) => {
                lemma_issued_strictly_increasing(last, rest);
                assert(spec_issued(last, events) == spec_issued(last, rest));
                assert(spec_final(last, events) == spec_final(last, rest));
            },
        }
    }
}


/// What receiving a message does, stated without the clock's case split: the
/// new timestamp takes the largest physical part of the wall clock reading,
/// the clock's last timestamp and the message's timestamp, and the least
/// logical counter that puts it strictly after both timestamps. The receive
/// fails exactly when no such counter exists, that is when one of the two
/// timestamps already has that physical part with its counter at `u16::MAX`.
/// The error then carries the exhausted timestamp: that physical part with
/// counter `u16::MAX`. In particular a wall clock ahead of both timestamps
/// always succeeds, with logical counter `0`.
pub proof fn lemma_receive_is_least_after_both(last: HLCTimestamp, system_time: u64, ts: HLCTimestamp)
    ensures
        spec_receive(last, system_time, ts) matches Ok(t) ==> t.physical == receive_physical(
            last,
            system_time,
            ts,
        ) && least_after_both(t, last, ts),
        spec_receive(last, system_time, ts) is Err <==> !room_after_both(
            receive_physical(last, system_time, ts),
            last,
            ts,
        ),
        spec_receive(last, system_time, ts) is Err ==> spec_receive(last, system_time, ts) == Err::<
            HLCTimestamp,
            HLCError,
        >(
            HLCError::LogicalOverflow(
                HLCTimestamp { physical: receive_physical(last, system_time, ts), logical: u16::MAX },
            ),
        ),
        system_time > last.physical && system_time > ts.physical ==> spec_receive(last, system_time, ts)
            == Ok::<HLCTimestamp, HLCError>(HLCTimestamp { physical: system_time, logical: 0 }),
{
}

/// What a local event does, stated without the clock's case split: the new
/// timestamp takes the larger physical part of the wall clock reading and
/// the clock's last timestamp, and the least logical counter that puts it
/// strictly after the last timestamp; it fails exactly when the last
/// timestamp has that physical part with its counter at `u16::MAX`, and the
/// error carries that exhausted timestamp.
pub proof fn lemma_tick_is_least_after(last: HLCTimestamp, system_time: u64)
    ensures
        spec_tick(last, system_time) matches Ok(t) ==> t.physical == tick_physical(last, system_time)
            && least_after_both(t, last, last),
        spec_tick(last, system_time) is Err <==> !room_after_both(
            tick_physical(last, system_time),
            last,
            last,
        ),
        spec_tick(last, system_time) is Err ==> spec_tick(last, system_time) == Err::<
            HLCTimestamp,
            HLCError,
        >(
            HLCError::LogicalOverflow(
                HLCTimestamp { physical: tick_physical(last, system_time), logical: u16::MAX },
            ),
        ),
{
}

} // verus!
