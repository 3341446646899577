//! Points in time and signed durations, both counted in nanoseconds.

use vstd::prelude::*;

verus! {

/// Nanoseconds in one second.
pub const NANOS_PER_SECOND: i128 = 1_000_000_000;

/// Nanoseconds in one minute.
pub const NANOS_PER_MINUTE: i128 = 60_000_000_000;

/// Nanoseconds in one hour.
pub const NANOS_PER_HOUR: i128 = 3_600_000_000_000;

/// A point on the UTC time line, held as the number of nanoseconds since
/// 1970-01-01T00:00:00Z. Its view is that number.
#[derive(Clone, Copy, Debug, PartialEq, Eq, Structural, PartialOrd, Ord, Hash)]
pub struct TimePoint {
    pub nanos: i128,
}

impl View for TimePoint {
    type V = int;

    open spec fn view(&self) -> int {
        self.nanos as int
    }
}

/// A signed span of time in nanoseconds. Its view is that number.
#[derive(Clone, Copy, Debug, PartialEq, Eq, Structural, PartialOrd, Ord, Hash)]
pub struct TimeDelta {
    pub nanos: i128,
}

impl View for TimeDelta {
    type V = int;

    open spec fn view(&self) -> int {
        self.nanos as int
    }
}

impl TimePoint {
    /// The point `nanos` nanoseconds after the epoch.
    pub fn from_nanos(nanos: i128) -> (t: TimePoint)
        ensures
            t@ == nanos,
    {
        TimePoint { nanos }
    }

    /// The point `secs` whole seconds and `nanos` nanoseconds after the epoch.
    pub fn from_timestamp(secs: i64, nanos: u32) -> (t: TimePoint)
        ensures
            t@ == secs * NANOS_PER_SECOND + nanos,
    {
        TimePoint { nanos: secs as i128 * NANOS_PER_SECOND + nanos as i128 }
    }

    /// Nanoseconds since the epoch.
    pub fn as_nanos(&self) -> (n: i128)
        ensures
            n == self@,
    {
        self.nanos
    }

    /// Whether this point lies strictly before `other`.
    pub fn is_before(&self, other: &TimePoint) -> (b: bool)
        ensures
            b == (self@ < other@),
    {
        self.nanos < other.nanos
    }

    /// This point moved by `delta`, or `None` where the sum cannot be held.
    pub fn checked_add(&self, delta: &TimeDelta) -> (r: Option<TimePoint>)
        ensures
            r is Some <==> i128::MIN <= self@ + delta@ <= i128::MAX,
            r matches Some(t) ==> t@ == self@ + delta@,
    {
        match self.nanos.checked_add(delta.nanos) {
            Some(nanos) => Some(TimePoint { nanos }),
            None => None,
        }
    }

    /// The signed distance from `earlier` to this point, or `None` where it
    /// cannot be held.
    pub fn checked_since(&self, earlier: &TimePoint) -> (r: Option<TimeDelta>)
        ensures
            r is Some <==> i128::MIN <= self@ - earlier@ <= i128::MAX,
            r matches Some(d) ==> d@ == self@ - earlier@,
    {
        match self.nanos.checked_sub(earlier.nanos) {
            Some(nanos) => Some(TimeDelta { nanos }),
            None => None,
        }
    }
}

impl TimeDelta {
    /// A span of `nanos` nanoseconds.
    pub fn from_nanos(nanos: i128) -> (d: TimeDelta)
        ensures
            d@ == nanos,
    {
        TimeDelta { nanos }
    }

    /// A span of `secs` seconds.
    pub fn seconds(secs: i64) -> (d: TimeDelta)
        ensures
            d@ == secs * NANOS_PER_SECOND,
    {
        TimeDelta { nanos: secs as i128 * NANOS_PER_SECOND }
    }

    /// A span of `mins` minutes.
    pub fn minutes(mins: i64) -> (d: TimeDelta)
        ensures
            d@ == mins * NANOS_PER_MINUTE,
    {
        TimeDelta { nanos: mins as i128 * NANOS_PER_MINUTE }
    }

    /// A span of `hours` hours.
    pub fn hours(hours: i64) -> (d: TimeDelta)
        ensures
            d@ == hours * NANOS_PER_HOUR,
    {
        TimeDelta { nanos: hours as i128 * NANOS_PER_HOUR }
    }

    /// The span in nanoseconds.
    pub fn as_nanos(&self) -> (n: i128)
        ensures
            n == self@,
    {
        self.nanos
    }

    /// Whether the span runs backwards.
    pub fn is_negative(&self) -> (b: bool)
        ensures
            b == (self@ < 0),
    {
        self.nanos < 0
    }
}

} // verus!
