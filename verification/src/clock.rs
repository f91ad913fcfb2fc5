//! Points in stream time and on the monotonic clock.

use vstd::prelude::*;

verus! {

/// Nanoseconds in one millisecond.
pub const MSECOND_NS: u64 = 1_000_000;

/// Nanoseconds in one second.
pub const SECOND_NS: u64 = 1_000_000_000;

/// The largest stream time in nanoseconds; the number above it marks a missing time.
pub const MAX_TIME_NS: u64 = 18_446_744_073_709_551_614;

/// `a - b`, or zero where that would be negative.
pub open spec fn minus_floor(a: int, b: int) -> int {
    if a >= b {
        a - b
    } else {
        0
    }
}

/// The larger of two numbers.
pub open spec fn larger(a: int, b: int) -> int {
    if a >= b {
        a
    } else {
        b
    }
}

/// The smaller of two numbers.
pub open spec fn smaller(a: int, b: int) -> int {
    if a <= b {
        a
    } else {
        b
    }
}

/// A time or a duration in a media stream, in nanoseconds.
#[derive(Clone, Copy, Debug, PartialEq, Eq, Structural)]
pub struct ClockTime {
    /// The nanoseconds.
    pub ns: u64,
}

impl ClockTime {
    /// The start of the stream.
    pub fn zero() -> (r: ClockTime)
        ensures
            r.ns == 0,
    {
        ClockTime { ns: 0 }
    }

    /// The time of that many seconds.
    pub fn from_seconds(seconds: u64) -> (r: ClockTime)
        requires
            seconds * SECOND_NS <= u64::MAX,
        ensures
            r.ns == seconds * SECOND_NS,
            r.ns == seconds * 1_000_000_000,
    {
        ClockTime { ns: seconds * SECOND_NS }
    }

    /// The time of that many milliseconds.
    pub fn from_mseconds(mseconds: u64) -> (r: ClockTime)
        requires
            mseconds * MSECOND_NS <= u64::MAX,
        ensures
            r.ns == mseconds * MSECOND_NS,
            r.ns == mseconds * 1_000_000,
    {
        ClockTime { ns: mseconds * MSECOND_NS }
    }

    /// The time of that many nanoseconds.
    pub fn from_nseconds(nseconds: u64) -> (r: ClockTime)
        requires
            nseconds <= MAX_TIME_NS,
        ensures
            r.ns == nseconds,
    {
        ClockTime { ns: nseconds }
    }

    /// The nanoseconds of this time.
    pub fn nseconds(self) -> (r: u64)
        ensures
            r == self.ns,
    {
        self.ns
    }

    /// The full milliseconds of this time.
    pub fn mseconds(self) -> (r: u64)
        ensures
            r == self.ns as int / MSECOND_NS as int,
            r * 1_000_000 <= self.ns < (r + 1) * 1_000_000,
    {
        self.ns / MSECOND_NS
    }

    /// The difference, or zero where `rhs` is the later one.
    pub fn saturating_sub(self, rhs: ClockTime) -> (r: ClockTime)
        ensures
            r.ns == minus_floor(self.ns as int, rhs.ns as int),
    {
        if self.ns >= rhs.ns {
            ClockTime { ns: self.ns - rhs.ns }
        } else {
            ClockTime { ns: 0 }
        }
    }

    /// The difference, if `rhs` is not the later one.
    pub fn checked_sub(self, rhs: ClockTime) -> (r: Option<ClockTime>)
        ensures
            r == (if self.ns >= rhs.ns {
                Some(ClockTime { ns: (self.ns - rhs.ns) as u64 })
            } else {
                None
            }),
    {
        if self.ns >= rhs.ns {
            Some(ClockTime { ns: self.ns - rhs.ns })
        } else {
            None
        }
    }

    /// The sum, or the largest time where the sum lies beyond it.
    pub fn saturating_add(self, rhs: ClockTime) -> (r: ClockTime)
        ensures
            r.ns == smaller(self.ns + rhs.ns, MAX_TIME_NS as int),
    {
        if self.ns <= MAX_TIME_NS && rhs.ns <= MAX_TIME_NS - self.ns {
            ClockTime { ns: self.ns + rhs.ns }
        } else {
            ClockTime { ns: MAX_TIME_NS }
        }
    }
}

/// A reading of the monotonic clock, in nanoseconds since a fixed start.
#[derive(Clone, Copy, Debug, PartialEq, Eq, Structural)]
pub struct Moment {
    /// The nanoseconds since that start.
    pub ns: u64,
}

impl Moment {
    /// The nanoseconds from `earlier` to this moment, or zero where `earlier` is the later one.
    pub fn duration_since(self, earlier: Moment) -> (ns: u64)
        ensures
            ns == minus_floor(self.ns as int, earlier.ns as int),
    {
        if self.ns >= earlier.ns {
            self.ns - earlier.ns
        } else {
            0
        }
    }
}

/// A difference that stops at zero gives back the larger of two times when the smaller one is
/// added to it.
pub proof fn law_difference_and_larger(a: int, b: int)
    ensures
        minus_floor(a, b) >= 0,
        minus_floor(a, b) + b == larger(a, b),
        larger(a, b) + smaller(a, b) == a + b,
        smaller(a, b) <= larger(a, b),
        larger(a, b) == a || larger(a, b) == b,
{
}

} // verus!
