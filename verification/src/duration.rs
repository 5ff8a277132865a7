//! A span of time with whole-nanosecond precision.

use vstd::prelude::*;

verus! {

/// Nanoseconds in one second.
pub const NANOS_PER_SEC: u64 = 1_000_000_000;

/// Nanoseconds in one millisecond.
pub const NANOS_PER_MILLI: u64 = 1_000_000;

/// A `Duration` type to represent a span of time, counted in nanoseconds.
#[derive(Copy, Clone, Debug, PartialEq, Eq, Structural)]
pub struct Duration {
    nanos: u64,
}

impl Duration {
    /// The number of nanoseconds in this `Duration`.
    pub closed spec fn spec_nanos(self) -> nat {
        self.nanos as nat
    }

    /// Creates a new `Duration` from whole seconds and a nanosecond remainder.
    pub fn new(secs: u64, nanos: u32) -> (r: Self)
        requires
            secs * NANOS_PER_SEC + nanos <= u64::MAX,
        ensures
            r.spec_nanos() == secs * NANOS_PER_SEC + nanos,
    {
        Duration { nanos: secs * NANOS_PER_SEC + nanos as u64 }
    }

    /// Creates a new `Duration` from whole seconds.
    pub fn from_secs(secs: u64) -> (r: Self)
        requires
            secs * NANOS_PER_SEC <= u64::MAX,
        ensures
            r.spec_nanos() == secs * NANOS_PER_SEC,
    {
        Duration { nanos: secs * NANOS_PER_SEC }
    }

    /// Creates a new `Duration` from whole milliseconds.
    pub fn from_millis(millis: u64) -> (r: Self)
        requires
            millis * NANOS_PER_MILLI <= u64::MAX,
        ensures
            r.spec_nanos() == millis * NANOS_PER_MILLI,
    {
        Duration { nanos: millis * NANOS_PER_MILLI }
    }

    /// Creates a new `Duration` from whole nanoseconds.
    pub fn from_nanos(nanos: u64) -> (r: Self)
        ensures
            r.spec_nanos() == nanos,
    {
        Duration { nanos }
    }

    /// The number of whole nanoseconds in this `Duration`.
    pub fn as_nanos(&self) -> (r: u64)
        ensures
            r == self.spec_nanos(),
    {
        self.nanos
    }

    /// Returns `true` if this `Duration` is zero.
    pub fn is_zero(&self) -> (r: bool)
        ensures
            r == (self.spec_nanos() == 0),
    {
        self.nanos == 0
    }

    /// Adds two `Duration`s together.
    pub fn add(&self, rhs: Duration) -> (r: Self)
        requires
            self.spec_nanos() + rhs.spec_nanos() <= u64::MAX,
        ensures
            r.spec_nanos() == self.spec_nanos() + rhs.spec_nanos(),
    {
        Duration { nanos: self.nanos + rhs.nanos }
    }

    /// Subtracts `rhs` from this `Duration`.
    pub fn sub(&self, rhs: Duration) -> (r: Self)
        requires
            rhs.spec_nanos() <= self.spec_nanos(),
        ensures
            r.spec_nanos() == self.spec_nanos() - rhs.spec_nanos(),
    {
        Duration { nanos: self.nanos - rhs.nanos }
    }

    /// Subtracts `rhs`, returning `None` when `rhs` is larger.
    pub fn checked_sub(&self, rhs: Duration) -> (r: Option<Duration>)
        ensures
            rhs.spec_nanos() <= self.spec_nanos() ==> (r matches Some(d) && d.spec_nanos()
                == self.spec_nanos() - rhs.spec_nanos()),
            rhs.spec_nanos() > self.spec_nanos() ==> r is None,
    {
        if rhs.nanos <= self.nanos {
            Some(Duration { nanos: self.nanos - rhs.nanos })
        } else {
            None
        }
    }
}

} // verus!
