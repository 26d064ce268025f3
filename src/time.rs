//! Rational time bases and timestamps expressed in them.
use vstd::prelude::*;

verus! {

/// Raw tick value that marks a timestamp as unknown.
pub const NO_TIMESTAMP: i64 = -9223372036854775808;

/// A positive rational unit of time: `num / den` seconds per tick.
#[derive(Debug, Clone, Copy, PartialEq, Eq, Structural)]
pub struct TimeBase {
    num: u32,
    den: u32,
}

impl TimeBase {
    /// Numerator, as a plain value.
    pub closed spec fn num_spec(&self) -> u32 {
        self.num
    }

    /// Denominator, as a plain value.
    pub closed spec fn den_spec(&self) -> u32 {
        self.den
    }

    /// Create a new time base. The denominator must not be zero.
    pub fn new(num: u32, den: u32) -> (r: TimeBase)
        requires
            den > 0,
        ensures
            r.num_spec() == num,
            r.den_spec() == den,
    {
        TimeBase { num, den }
    }

    /// Get the numerator.
    pub fn num(&self) -> (r: u32)
        ensures
            r == self.num_spec(),
    {
        self.num
    }

    /// Get the denominator.
    pub fn den(&self) -> (r: u32)
        ensures
            r == self.den_spec(),
    {
        self.den
    }
}

/// A tick count expressed in a given time base, or an unknown instant.
#[derive(Debug, Clone, Copy, PartialEq, Eq, Structural)]
pub struct Timestamp {
    pts: i64,
    time_base: TimeBase,
}

impl Timestamp {
    /// The tick count, or `None` when the timestamp is unknown.
    pub closed spec fn ticks(&self) -> Option<i64> {
        if self.pts == NO_TIMESTAMP {
            None
        } else {
            Some(self.pts)
        }
    }

    /// The time base the timestamp is expressed in.
    pub closed spec fn base(&self) -> TimeBase {
        self.time_base
    }

    /// Create a timestamp; the reserved unknown value gives an unknown timestamp.
    pub fn new(pts: i64, time_base: TimeBase) -> (r: Timestamp)
        ensures
            r.ticks() == (if pts == NO_TIMESTAMP { None } else { Some(pts) }),
            r.base() == time_base,
    {
        Timestamp { pts, time_base }
    }

    /// Create an unknown timestamp in a given time base.
    pub fn null(time_base: TimeBase) -> (r: Timestamp)
        ensures
            r.ticks() is None,
            r.base() == time_base,
    {
        Timestamp { pts: NO_TIMESTAMP, time_base }
    }

    /// Check whether the timestamp is unknown.
    pub fn is_null(&self) -> (r: bool)
        ensures
            r == (self.ticks() is None),
    {
        self.pts == NO_TIMESTAMP
    }

    /// Get the tick count, if known.
    pub fn timestamp(&self) -> (r: Option<i64>)
        ensures
            r == self.ticks(),
    {
        if self.pts == NO_TIMESTAMP {
            None
        } else {
            Some(self.pts)
        }
    }

    /// Get the time base.
    pub fn time_base(&self) -> (r: TimeBase)
        ensures
            r == self.base(),
    {
        self.time_base
    }
}

} // verus!
