//! Instants on the UTC time line, as whole seconds and nanoseconds.

use vstd::prelude::*;

verus! {

/// The last second that the clock can show. `chrono` numbers the days from
/// the year 1 in 32 bits, with 1970-01-01 as day 719 163, so no reading
/// lies beyond the last second of the last such day.
pub const MAX_CLOCK_SECS: i64 = 185_480_451_503_999;

/// An instant: seconds since 1970-01-01T00:00:00Z and the nanoseconds
/// past that second.
#[derive(Clone, Copy, Debug, PartialEq, Eq, Structural)]
pub struct Timestamp {
    pub secs: i64,
    pub nanos: u32,
}

impl Timestamp {
    /// Whether the clock can show this instant: it lies in 1970 or later,
    /// not beyond [`MAX_CLOCK_SECS`], and its nanoseconds stay below one
    /// second.
    pub open spec fn is_clock_reading(self) -> bool {
        0 <= self.secs <= MAX_CLOCK_SECS && self.nanos < 1_000_000_000
    }

    /// Whether `self` lies strictly later than `other`.
    pub open spec fn is_after(self, other: Timestamp) -> bool {
        self.secs > other.secs || (self.secs == other.secs && self.nanos > other.nanos)
    }

    /// The instant `secs` whole seconds after `self`, where the seconds
    /// still fit the representation.
    pub open spec fn plus_seconds(self, secs: u64) -> Option<Timestamp> {
        if self.secs + secs <= i64::MAX {
            Some(Timestamp { secs: (self.secs + secs) as i64, nanos: self.nanos })
        } else {
            None
        }
    }

    /// The instant `nanos` nanoseconds past the second `secs`.
    pub fn new(secs: i64, nanos: u32) -> (t: Timestamp)
        ensures
            t.secs == secs,
            t.nanos == nanos,
    {
        Timestamp { secs, nanos }
    }

    /// Tells whether `self` lies strictly later than `other`.
    pub fn after(&self, other: &Timestamp) -> (r: bool)
        ensures
            r == self.is_after(*other),
    {
        self.secs > other.secs || (self.secs == other.secs && self.nanos > other.nanos)
    }

    /// Moves `secs` whole seconds forward; `None` where the result would
    /// not fit.
    pub fn add_seconds(&self, secs: u64) -> (r: Option<Timestamp>)
        ensures
            r == self.plus_seconds(secs),
    {
        let sum: i128 = self.secs as i128 + secs as i128;
        if sum <= i64::MAX as i128 {
            Some(Timestamp { secs: sum as i64, nanos: self.nanos })
        } else {
            None
        }
    }
}

/// Reads the system clock through `chrono::Utc::now`. The reading differs
/// from call to call; what holds of each is its range: `chrono` takes the
/// time since 1970 from the system, whole seconds and the nanoseconds of
/// the second begun, and hands out only what it can hold as a date.
/// `chrono` panics where the system clock stands before 1970.
#[verifier::external_body]
pub(crate) fn current_time() -> (now: Timestamp)
    ensures
        now.is_clock_reading(),
{
    let now = chrono::Utc::now();
    Timestamp { secs: now.timestamp(), nanos: now.timestamp_subsec_nanos() }
}

} // verus!
