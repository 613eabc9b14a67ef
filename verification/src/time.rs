//! A monotonic span of time, counted in nanoseconds.
//!
//! The scheduling state machines of this library take the current time as an
//! explicit argument (time since an arbitrary fixed origin), so they are
//! deterministic and need no clock.

use vstd::prelude::*;

verus! {

/// A span of time with nanosecond resolution.
#[derive(Clone, Copy, PartialEq, Eq, Structural, PartialOrd, Ord, Hash, Debug)]
pub struct Duration {
    nanos: u128,
}

impl View for Duration {
    type V = nat;

    /// The span in nanoseconds.
    closed spec fn view(&self) -> nat {
        self.nanos as nat
    }
}

/// `a - b`, or zero when `b` is the longer span.
pub open spec fn sat_sub(a: nat, b: nat) -> nat {
    if a >= b { (a - b) as nat } else { 0 }
}

impl Duration {
    /// The empty span.
    pub fn zero() -> (r: Duration)
        ensures
            r@ == 0,
    {
        Duration { nanos: 0 }
    }

    /// A span of `ms` milliseconds.
    pub fn from_millis(ms: u64) -> (r: Duration)
        ensures
            r@ == ms * 1_000_000,
    {
        Duration { nanos: ms as u128 * 1_000_000 }
    }

    /// A span of `secs` seconds.
    pub fn from_secs(secs: u64) -> (r: Duration)
        ensures
            r@ == secs * 1_000_000_000,
    {
        Duration { nanos: secs as u128 * 1_000_000_000 }
    }

    /// A span of `nanos` nanoseconds.
    pub fn from_nanos(nanos: u128) -> (r: Duration)
        ensures
            r@ == nanos,
    {
        Duration { nanos }
    }

    /// The span in whole nanoseconds.
    pub fn as_nanos(self) -> (r: u128)
        ensures
            r == self@,
    {
        self.nanos
    }

    /// The span in whole milliseconds (rounded down).
    pub fn as_millis(self) -> (r: u128)
        ensures
            r == self@ / 1_000_000,
    {
        self.nanos / 1_000_000
    }

    /// Whether the span is empty.
    pub fn is_zero(self) -> (r: bool)
        ensures
            r == (self@ == 0),
    {
        self.nanos == 0
    }

    /// `self - other`, or zero when `other` is longer.
    pub fn saturating_sub(self, other: Duration) -> (r: Duration)
        ensures
            r@ == sat_sub(self@, other@),
    {
        if self.nanos >= other.nanos {
            Duration { nanos: self.nanos - other.nanos }
        } else {
            Duration { nanos: 0 }
        }
    }

    /// `self + other`, or the longest representable span on overflow.
    pub fn saturating_add(self, other: Duration) -> (r: Duration)
        ensures
            r@ == if self@ + other@ <= u128::MAX { self@ + other@ } else { u128::MAX as nat },
    {
        if self.nanos <= u128::MAX - other.nanos {
            Duration { nanos: self.nanos + other.nanos }
        } else {
            Duration { nanos: u128::MAX }
        }
    }

    /// `self * n`, or the longest representable span on overflow.
    pub fn saturating_mul(self, n: u64) -> (r: Duration)
        ensures
            r@ == if self@ * n <= u128::MAX { (self@ * n) as nat } else { u128::MAX as nat },
    {
        if n == 0 {
            return Duration { nanos: 0 };
        }
        if self.nanos <= u128::MAX / (n as u128) {
            proof {
                assert(self.nanos * (n as u128) <= (u128::MAX / (n as u128)) * (n as u128)) by (nonlinear_arith)
                    requires self.nanos <= u128::MAX / (n as u128), n > 0;
                assert((u128::MAX / (n as u128)) * (n as u128) <= u128::MAX) by (nonlinear_arith)
                    requires n > 0;
            }
            Duration { nanos: self.nanos * (n as u128) }
        } else {
            proof {
                assert(self.nanos * (n as u128) > u128::MAX) by (nonlinear_arith)
                    requires self.nanos > u128::MAX / (n as u128), n > 0;
            }
            Duration { nanos: u128::MAX }
        }
    }

    /// Whether `self` is at least as long as `other`.
    pub fn at_least(self, other: Duration) -> (r: bool)
        ensures
            r == (self@ >= other@),
    {
        self.nanos >= other.nanos
    }

    /// The longer of two spans.
    pub fn max(self, other: Duration) -> (r: Duration)
        ensures
            r@ == if self@ >= other@ { self@ } else { other@ },
    {
        if self.nanos >= other.nanos { self } else { other }
    }

    /// The shorter of two spans.
    pub fn min(self, other: Duration) -> (r: Duration)
        ensures
            r@ == if self@ <= other@ { self@ } else { other@ },
    {
        if self.nanos <= other.nanos { self } else { other }
    }
}

} // verus!
