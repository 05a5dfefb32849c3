//! A signed span of time with microsecond resolution.

use vstd::math::abs;
use vstd::prelude::*;

verus! {

/// Microseconds in one second.
pub const MICROS_PER_SECOND: u64 = 1_000_000;

/// Microseconds in one minute.
pub const MICROS_PER_MINUTE: u64 = 60_000_000;

/// A signed span of time, counted in whole microseconds. A negative span lies
/// before its point of reference.
#[derive(Clone, Copy, Debug, PartialEq, Eq, Structural)]
pub struct TimeSpan {
    micros: i64,
}

impl View for TimeSpan {
    type V = int;

    /// The span as a number of microseconds.
    closed spec fn view(&self) -> int {
        self.micros as int
    }
}

impl TimeSpan {
    /// The span of `micros` microseconds.
    pub fn from_microseconds(micros: i64) -> (span: TimeSpan)
        ensures
            span@ == micros,
    {
        TimeSpan { micros }
    }

    /// The span as a number of microseconds.
    pub fn total_microseconds(&self) -> (micros: i64)
        ensures
            micros == self@,
    {
        self.micros
    }

    /// Whether the span lies before its point of reference. Zero does not.
    pub fn is_negative(&self) -> (negative: bool)
        ensures
            negative == (self@ < 0),
    {
        self.micros < 0
    }

    /// The length of the span without its sign, in microseconds.
    pub fn magnitude(&self) -> (micros: u64)
        ensures
            micros == abs(self@),
    {
        if self.micros >= 0 {
            self.micros as u64
        } else {
            // -(m + 1) fits in i64 even for the least value, whose negation does not.
            (-(self.micros + 1)) as u64 + 1
        }
    }
}

} // verus!
