//! Points in time and spans of time at nanosecond resolution.
//!
//! Both are plain pairs of whole seconds and a nanosecond part below one
//! second, so `secs * 1_000_000_000 + nanos` is the position (or length) in
//! nanoseconds. The calendar arithmetic itself is done by `chrono`.

use chrono::{DateTime, TimeDelta};
use vstd::prelude::*;

use crate::fixed::quotient;

verus! {

pub const NANOS_PER_SEC: u32 = 1_000_000_000;

/// Seconds since the epoch of the first instant that `chrono` can hold.
pub const MIN_TIMESTAMP_SECS: i64 = -8_334_601_228_800;

/// Seconds since the epoch of the last second that `chrono` can hold.
pub const MAX_TIMESTAMP_SECS: i64 = 8_210_266_876_799;

/// Whole seconds of the longest span that `chrono` can hold.
pub const MAX_DURATION_SECS: i64 = 9_223_372_036_854_775;

/// Nanosecond part of the longest span that `chrono` can hold.
pub const MAX_DURATION_NANOS: u32 = 807_000_000;

/// Whole seconds, rounded down, of the most negative span that `chrono` can
/// hold.
pub const MIN_DURATION_SECS: i64 = -9_223_372_036_854_776;

/// Nanosecond part of the most negative span that `chrono` can hold.
pub const MIN_DURATION_NANOS: u32 = 193_000_000;

/// A point in time: seconds since 1970-01-01 00:00:00 UTC, rounded down, and
/// the nanoseconds past that second.
#[derive(Clone, Copy, Debug, PartialEq, Eq, Structural, PartialOrd, Ord, Hash)]
pub struct Timestamp {
    pub secs: i64,
    pub nanos: u32,
}

/// A signed span of time: whole seconds, rounded down, and the nanoseconds
/// past them.
#[derive(Clone, Copy, Debug, PartialEq, Eq, Structural, PartialOrd, Ord, Hash)]
pub struct Duration {
    pub secs: i64,
    pub nanos: u32,
}

/// The number of whole seconds in a span of `nanos` nanoseconds, cut off
/// toward zero.
pub open spec fn whole_seconds(nanos: int) -> int {
    quotient(nanos, NANOS_PER_SEC as int)
}

/// Whether a position of `nanos` nanoseconds lies in the range of
/// [`Timestamp`].
pub open spec fn in_timestamp_range(nanos: int) -> bool {
    MIN_TIMESTAMP_SECS * NANOS_PER_SEC <= nanos < (MAX_TIMESTAMP_SECS + 1) * NANOS_PER_SEC
}

/// The timestamp at a position of `nanos` nanoseconds.
pub open spec fn timestamp_at(nanos: int) -> Timestamp {
    Timestamp {
        secs: (nanos / (NANOS_PER_SEC as int)) as i64,
        nanos: (nanos % (NANOS_PER_SEC as int)) as u32,
    }
}

impl Timestamp {
    /// The timestamp is one that `chrono` can hold, outside a leap second.
    pub open spec fn wf(self) -> bool {
        &&& MIN_TIMESTAMP_SECS <= self.secs <= MAX_TIMESTAMP_SECS
        &&& self.nanos < NANOS_PER_SEC
    }

    /// Position in nanoseconds since the epoch.
    pub open spec fn as_nanos(self) -> int {
        self.secs * NANOS_PER_SEC + self.nanos
    }

    /// `self` is not later than `other`.
    pub open spec fn spec_le(self, other: Timestamp) -> bool {
        self.secs < other.secs || (self.secs == other.secs && self.nanos <= other.nanos)
    }

    /// `self` is earlier than `other`.
    pub open spec fn spec_lt(self, other: Timestamp) -> bool {
        self.secs < other.secs || (self.secs == other.secs && self.nanos < other.nanos)
    }

    /// The timestamp with the given parts, if they are in range.
    pub fn new(secs: i64, nanos: u32) -> (r: Option<Timestamp>)
        ensures
            r == if (Timestamp { secs, nanos }).wf() {
                Some(Timestamp { secs, nanos })
            } else {
                None
            },
    {
        if MIN_TIMESTAMP_SECS <= secs && secs <= MAX_TIMESTAMP_SECS && nanos < NANOS_PER_SEC {
            Some(Timestamp { secs, nanos })
        } else {
            None
        }
    }

    /// Whether `self` is not later than `other`.
    pub fn le(&self, other: &Timestamp) -> (r: bool)
        ensures
            r == self.spec_le(*other),
    {
        self.secs < other.secs || (self.secs == other.secs && self.nanos <= other.nanos)
    }

    /// Whether `self` is earlier than `other`.
    pub fn lt(&self, other: &Timestamp) -> (r: bool)
        ensures
            r == self.spec_lt(*other),
    {
        self.secs < other.secs || (self.secs == other.secs && self.nanos < other.nanos)
    }

    /// This timestamp moved by `by`, or `None` where that leaves the range.
    pub fn checked_add(self, by: Duration) -> (r: Option<Timestamp>)
        requires
            self.wf(),
            by.wf(),
        ensures
            r == shifted(self, by),
            r matches Some(t) ==> t.wf(),
    {
        let r = add_duration(self, by);
        proof {
            if in_timestamp_range(self.as_nanos() + by.as_nanos()) {
                lemma_timestamp_at_wf(self.as_nanos() + by.as_nanos());
            }
        }
        r
    }

    /// Whole seconds from `earlier` to `self`, cut off toward zero; negative
    /// where `self` is the earlier one.
    pub fn seconds_since(self, earlier: Timestamp) -> (secs: i64)
        requires
            self.wf(),
            earlier.wf(),
        ensures
            secs == elapsed_seconds(earlier, self),
    {
        whole_seconds_between(earlier, self)
    }
}

impl Duration {
    /// The span is one that `chrono` can hold.
    pub open spec fn wf(self) -> bool {
        &&& MIN_DURATION_SECS <= self.secs <= MAX_DURATION_SECS
        &&& self.nanos < NANOS_PER_SEC
        &&& self.secs == MAX_DURATION_SECS ==> self.nanos <= MAX_DURATION_NANOS
        &&& self.secs == MIN_DURATION_SECS ==> self.nanos >= MIN_DURATION_NANOS
    }

    /// Length in nanoseconds.
    pub open spec fn as_nanos(self) -> int {
        self.secs * NANOS_PER_SEC + self.nanos
    }

    /// The span with the given parts, if they are in range.
    pub fn new(secs: i64, nanos: u32) -> (r: Option<Duration>)
        ensures
            r == if (Duration { secs, nanos }).wf() {
                Some(Duration { secs, nanos })
            } else {
                None
            },
    {
        if secs < MIN_DURATION_SECS || secs > MAX_DURATION_SECS || nanos >= NANOS_PER_SEC || (secs
            == MAX_DURATION_SECS && nanos > MAX_DURATION_NANOS) || (secs == MIN_DURATION_SECS
            && nanos < MIN_DURATION_NANOS) {
            None
        } else {
            Some(Duration { secs, nanos })
        }
    }

    /// A span of `secs` whole seconds.
    pub fn seconds(secs: i64) -> (r: Duration)
        requires
            MIN_DURATION_SECS < secs <= MAX_DURATION_SECS,
        ensures
            r == (Duration { secs, nanos: 0 }),
            r.wf(),
            r.as_nanos() == secs * NANOS_PER_SEC,
    {
        Duration { secs, nanos: 0 }
    }
}

/// Whole seconds from `from` to `to`, cut off toward zero.
pub open spec fn elapsed_seconds(from: Timestamp, to: Timestamp) -> int {
    whole_seconds(to.as_nanos() - from.as_nanos())
}

/// `at` moved by `by`, where the result is in range.
pub open spec fn shifted(at: Timestamp, by: Duration) -> Option<Timestamp> {
    let nanos = at.as_nanos() + by.as_nanos();
    if in_timestamp_range(nanos) {
        Some(timestamp_at(nanos))
    } else {
        None
    }
}

/// Between well-formed timestamps the order by parts is the order by
/// position.
pub proof fn lemma_order_is_by_position(a: Timestamp, b: Timestamp)
    requires
        a.nanos < NANOS_PER_SEC,
        b.nanos < NANOS_PER_SEC,
    ensures
        a.spec_le(b) <==> a.as_nanos() <= b.as_nanos(),
        a.spec_lt(b) <==> a.as_nanos() < b.as_nanos(),
{
}

/// A position in range gives a well-formed timestamp at that position.
pub proof fn lemma_timestamp_at_wf(nanos: int)
    requires
        in_timestamp_range(nanos),
    ensures
        timestamp_at(nanos).wf(),
        timestamp_at(nanos).as_nanos() == nanos,
{
}

/// Calls `DateTime::signed_duration_since` on the two instants and
/// `TimeDelta::num_seconds` on the difference. The difference of two
/// instants outside a leap second is exact, and `num_seconds` drops its
/// fraction toward zero.
#[verifier::external_body]
fn whole_seconds_between(from: Timestamp, to: Timestamp) -> (secs: i64)
    requires
        from.wf(),
        to.wf(),
    ensures
        secs == elapsed_seconds(from, to),
{
    let start = DateTime::from_timestamp(from.secs, from.nanos).unwrap();
    let end = DateTime::from_timestamp(to.secs, to.nanos).unwrap();
    end.signed_duration_since(start).num_seconds()
}

/// Calls `DateTime::checked_add_signed`. It returns the instant moved by the
/// exact span, or `None` where the resulting date is out of range.
#[verifier::external_body]
fn add_duration(at: Timestamp, by: Duration) -> (r: Option<Timestamp>)
    requires
        at.wf(),
        by.wf(),
    ensures
        r == shifted(at, by),
{
    let start = DateTime::from_timestamp(at.secs, at.nanos).unwrap();
    let span = TimeDelta::new(by.secs, by.nanos).unwrap();
    match start.checked_add_signed(span) {
        Some(end) => Some(Timestamp { secs: end.timestamp(), nanos: end.timestamp_subsec_nanos() }),
        None => None,
    }
}

} // verus!
