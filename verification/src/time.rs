//! Lengths of time.
use vstd::prelude::*;

verus! {

/// A length of time, to the nanosecond.
#[derive(Debug, Clone, Copy, PartialEq, Eq, PartialOrd, Ord, Structural)]
pub struct Duration {
    pub nanos: u128,
}

impl Duration {
    /// No time at all.
    pub fn zero() -> (r: Self)
        ensures
            r.nanos == 0,
    {
        Duration { nanos: 0 }
    }

    pub fn from_millis(millis: u64) -> (r: Self)
        ensures
            r == millis_long(millis),
    {
        Duration { nanos: millis as u128 * 1_000_000 }
    }

    pub fn from_secs(secs: u64) -> (r: Self)
        ensures
            r.nanos == secs * 1_000_000_000,
    {
        Duration { nanos: secs as u128 * 1_000_000_000 }
    }

    pub fn from_nanos(nanos: u128) -> (r: Self)
        ensures
            r.nanos == nanos,
    {
        Duration { nanos }
    }

    /// The whole milliseconds.
    pub fn as_millis(&self) -> (r: u128)
        ensures
            r == self.nanos / 1_000_000,
    {
        self.nanos / 1_000_000
    }

    pub fn is_zero(&self) -> (r: bool)
        ensures
            r == (self.nanos == 0),
    {
        self.nanos == 0
    }

    /// What is left of this time after `other`, or nothing.
    pub fn saturating_sub(self, other: Duration) -> (r: Duration)
        ensures
            r == minus(self, other),
    {
        if self.nanos >= other.nanos {
            Duration { nanos: self.nanos - other.nanos }
        } else {
            Duration { nanos: 0 }
        }
    }

    pub fn longer(self, other: Duration) -> (r: Duration)
        ensures
            r == greater(self, other),
    {
        if other.nanos > self.nanos {
            other
        } else {
            self
        }
    }

    pub fn shorter(self, other: Duration) -> (r: Duration)
        ensures
            r == lesser(self, other),
    {
        if other.nanos < self.nanos {
            other
        } else {
            self
        }
    }
}

pub open spec fn millis_long(millis: u64) -> Duration {
    Duration { nanos: (millis * 1_000_000) as u128 }
}

/// What is left of `a` after `b`, or nothing.
pub open spec fn minus(a: Duration, b: Duration) -> Duration {
    if a.nanos >= b.nanos {
        Duration { nanos: (a.nanos - b.nanos) as u128 }
    } else {
        Duration { nanos: 0 }
    }
}

pub open spec fn greater(a: Duration, b: Duration) -> Duration {
    if b.nanos > a.nanos {
        b
    } else {
        a
    }
}

pub open spec fn lesser(a: Duration, b: Duration) -> Duration {
    if b.nanos < a.nanos {
        b
    } else {
        a
    }
}

/// The current time since the beginning of 1970 in nanoseconds, by `std::time::SystemTime::now`.
/// A clock set to an earlier time gives zero.
///
/// Trusted: nothing is claimed of the result.
#[verifier::external_body]
pub(crate) fn unix_nanos() -> (r: u128) {
    match std::time::SystemTime::now().duration_since(std::time::UNIX_EPOCH) {
        Ok(since) => since.as_nanos(),
        Err(_) => 0,
    }
}

} // verus!
