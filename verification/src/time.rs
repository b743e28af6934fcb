//! Lengths of time and points on a monotonic clock, both as seconds and nanoseconds.
use vstd::prelude::*;

verus! {

pub const NANOS_PER_SEC: u32 = 1_000_000_000;

pub const NANOS_PER_MILLI: u32 = 1_000_000;

pub const NANOS_PER_MICRO: u32 = 1_000;

/// A length of time, or the time that has passed on a monotonic clock since its start.
#[derive(Clone, Copy, Debug, PartialEq, Eq, Structural)]
pub struct TimeSpan {
    pub secs: u64,
    pub nanos: u32,
}

impl TimeSpan {
    /// The nanoseconds make up less than a second.
    pub open spec fn well_formed(self) -> bool {
        self.nanos < NANOS_PER_SEC
    }

    /// The whole length in nanoseconds.
    pub open spec fn total(self) -> int {
        self.secs * NANOS_PER_SEC + self.nanos
    }

    /// A span of whole seconds.
    pub fn from_secs(secs: u64) -> (span: TimeSpan)
        ensures
            span.well_formed(),
            span.total() == secs * NANOS_PER_SEC,
    {
        TimeSpan { secs, nanos: 0 }
    }

    /// A span of whole milliseconds.
    pub fn from_millis(millis: u64) -> (span: TimeSpan)
        ensures
            span.well_formed(),
            span.total() == millis * NANOS_PER_MILLI,
    {
        let rest: u64 = millis % 1_000;
        TimeSpan { secs: millis / 1_000, nanos: rest as u32 * NANOS_PER_MILLI }
    }

    /// A span of whole microseconds.
    pub fn from_micros(micros: u64) -> (span: TimeSpan)
        ensures
            span.well_formed(),
            span.total() == micros * NANOS_PER_MICRO,
    {
        let rest: u64 = micros % 1_000_000;
        TimeSpan { secs: micros / 1_000_000, nanos: rest as u32 * NANOS_PER_MICRO }
    }

    /// Whether this span is longer than `other`.
    pub fn longer_than(self, other: TimeSpan) -> (longer: bool)
        requires
            self.well_formed(),
            other.well_formed(),
        ensures
            longer == (self.total() > other.total()),
    {
        self.secs > other.secs || (self.secs == other.secs && self.nanos > other.nanos)
    }

    /// This span shortened by `other`, but not below zero.
    pub fn saturating_sub(self, other: TimeSpan) -> (rest: TimeSpan)
        requires
            self.well_formed(),
            other.well_formed(),
        ensures
            rest.well_formed(),
            rest.total() == if self.total() >= other.total() {
                self.total() - other.total()
            } else {
                0
            },
    {
        if other.longer_than(self) {
            TimeSpan { secs: 0, nanos: 0 }
        } else if self.nanos >= other.nanos {
            TimeSpan { secs: self.secs - other.secs, nanos: self.nanos - other.nanos }
        } else {
            TimeSpan {
                secs: self.secs - other.secs - 1,
                nanos: NANOS_PER_SEC - other.nanos + self.nanos,
            }
        }
    }

    /// How far apart the two spans are.
    pub fn abs_diff(self, other: TimeSpan) -> (distance: TimeSpan)
        requires
            self.well_formed(),
            other.well_formed(),
        ensures
            distance.well_formed(),
            distance.total() == if self.total() >= other.total() {
                self.total() - other.total()
            } else {
                other.total() - self.total()
            },
    {
        if other.longer_than(self) {
            other.saturating_sub(self)
        } else {
            self.saturating_sub(other)
        }
    }
}

/// Two spans of the same length are the same.
pub proof fn law_total_determines_span(a: TimeSpan, b: TimeSpan)
    requires
        a.well_formed(),
        b.well_formed(),
        a.total() == b.total(),
    ensures
        a == b,
{
}

/// A length of time counts a thousand million nanoseconds for each second.
pub proof fn law_seconds_have_their_nanoseconds(span: TimeSpan)
    ensures
        span.total() == span.secs * 1_000_000_000 + span.nanos,
        span.well_formed() <==> span.nanos < 1_000_000_000,
{
}

/// Whole seconds, milliseconds and microseconds make up the length that they name.
pub proof fn law_units_make_up_their_length(
    count: u64,
    seconds: TimeSpan,
    millis: TimeSpan,
    micros: TimeSpan,
)
    requires
        call_ensures(TimeSpan::from_secs, (count,), seconds),
        call_ensures(TimeSpan::from_millis, (count,), millis),
        call_ensures(TimeSpan::from_micros, (count,), micros),
    ensures
        seconds.secs == count && seconds.nanos == 0,
        millis.secs * 1_000 + millis.nanos / 1_000_000 == count && millis.nanos % 1_000_000 == 0
            && millis.nanos < 1_000_000_000,
        micros.secs * 1_000_000 + micros.nanos / 1_000 == count && micros.nanos % 1_000 == 0
            && micros.nanos < 1_000_000_000,
{
}

/// The longer of two spans is the shorter one and their distance together, and what is left of a
/// span that is shortened by a longer one is nothing.
pub proof fn law_distance_joins_two_spans(
    a: TimeSpan,
    b: TimeSpan,
    longer: bool,
    rest: TimeSpan,
    distance: TimeSpan,
)
    requires
        call_ensures(TimeSpan::longer_than, (a, b), longer),
        call_ensures(TimeSpan::saturating_sub, (a, b), rest),
        call_ensures(TimeSpan::abs_diff, (a, b), distance),
        a.well_formed(),
        b.well_formed(),
    ensures
        longer <==> a.secs > b.secs || (a.secs == b.secs && a.nanos > b.nanos),
        rest.nanos < 1_000_000_000 && distance.nanos < 1_000_000_000,
        longer ==> (b.secs + rest.secs) * 1_000_000_000 + b.nanos + rest.nanos == a.secs
            * 1_000_000_000 + a.nanos && distance == rest,
        !longer ==> rest.secs == 0 && rest.nanos == 0 && (a.secs + distance.secs) * 1_000_000_000
            + a.nanos + distance.nanos == b.secs * 1_000_000_000 + b.nanos,
{
}

} // verus!
