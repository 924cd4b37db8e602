//! Spans of time and points on a monotonic clock, both counted in nanoseconds.

use vstd::prelude::*;

verus! {

pub const NANOS_PER_SEC: u128 = 1_000_000_000;

pub const NANOS_PER_MILLI: u128 = 1_000_000;

/// The longest span: one nanosecond short of `2^64` seconds.
pub const MAX_NANOS: u128 = 18_446_744_073_709_551_615_999_999_999;

/// A span of time.
#[derive(Clone, Copy, Debug, PartialEq, Eq, PartialOrd, Ord, Hash, Structural)]
pub struct Duration {
    pub nanos: u128,
}

impl Duration {
    pub fn zero() -> (d: Duration)
        ensures
            d.nanos == 0,
    {
        Duration { nanos: 0 }
    }

    /// The longest span that can be written down.
    pub fn max_value() -> (d: Duration)
        ensures
            d.nanos == MAX_NANOS,
    {
        Duration { nanos: MAX_NANOS }
    }

    pub fn from_secs(secs: u64) -> (d: Duration)
        ensures
            d.nanos == secs * NANOS_PER_SEC,
    {
        Duration { nanos: secs as u128 * NANOS_PER_SEC }
    }

    pub fn from_millis(millis: u64) -> (d: Duration)
        ensures
            d.nanos == millis * NANOS_PER_MILLI,
    {
        Duration { nanos: millis as u128 * NANOS_PER_MILLI }
    }

    pub fn is_zero(&self) -> (b: bool)
        ensures
            b == (self.nanos == 0),
    {
        self.nanos == 0
    }

    /// The longer of two spans.
    pub open spec fn longer(self, other: Duration) -> Duration {
        if self.nanos >= other.nanos {
            self
        } else {
            other
        }
    }

    /// The shorter of two spans.
    pub open spec fn shorter(self, other: Duration) -> Duration {
        if self.nanos <= other.nanos {
            self
        } else {
            other
        }
    }

    pub fn max(self, other: Duration) -> (d: Duration)
        ensures
            d == self.longer(other),
    {
        if self.nanos >= other.nanos {
            self
        } else {
            other
        }
    }

    pub fn min(self, other: Duration) -> (d: Duration)
        ensures
            d == self.shorter(other),
    {
        if self.nanos <= other.nanos {
            self
        } else {
            other
        }
    }
}

/// A point on a monotonic clock, as the nanoseconds since some fixed origin.
#[derive(Clone, Copy, Debug, PartialEq, Eq, PartialOrd, Ord, Hash, Structural)]
pub struct Instant {
    pub nanos: u128,
}

impl Instant {
    /// The time since `earlier`, or nothing when `earlier` is in the future.
    pub open spec fn since(self, earlier: Instant) -> nat {
        if self.nanos >= earlier.nanos {
            (self.nanos - earlier.nanos) as nat
        } else {
            0
        }
    }

    pub fn saturating_duration_since(&self, earlier: Instant) -> (d: Duration)
        ensures
            d.nanos == self.since(earlier),
    {
        if self.nanos >= earlier.nanos {
            Duration { nanos: self.nanos - earlier.nanos }
        } else {
            Duration { nanos: 0 }
        }
    }

    /// The point `d` after this one, or the last one that the clock can represent.
    pub open spec fn later(self, d: Duration) -> Instant {
        Instant {
            nanos: if self.nanos + d.nanos <= u128::MAX {
                (self.nanos + d.nanos) as u128
            } else {
                u128::MAX
            },
        }
    }

    pub fn after(&self, d: Duration) -> (t: Instant)
        ensures
            t == self.later(d),
    {
        if d.nanos <= u128::MAX - self.nanos {
            Instant { nanos: self.nanos + d.nanos }
        } else {
            Instant { nanos: u128::MAX }
        }
    }
}

/// The longer of two spans is no shorter than either and is one of them, and the shorter likewise.
pub proof fn longer_and_shorter_bound_both(a: Duration, b: Duration)
    ensures
        a.longer(b).nanos >= a.nanos,
        a.longer(b).nanos >= b.nanos,
        a.longer(b) == a || a.longer(b) == b,
        a.shorter(b).nanos <= a.nanos,
        a.shorter(b).nanos <= b.nanos,
        a.shorter(b) == a || a.shorter(b) == b,
{
}

/// A span that is added to a point is the time from that point on, a later point is never before an
/// earlier one, and no time passes backwards.
pub proof fn later_and_since_agree(t: Instant, d: Duration, longer: Duration, other: Instant)
    requires
        t.nanos + d.nanos <= u128::MAX,
        d.nanos <= longer.nanos,
    ensures
        t.later(d).since(t) == d.nanos,
        t.later(d).nanos == t.nanos + d.nanos,
        t.later(d).nanos <= t.later(longer).nanos,
        t.nanos <= other.nanos ==> t.since(other) == 0,
        t.nanos <= other.nanos ==> t.nanos + other.since(t) == other.nanos,
{
}

} // verus!
