//! Spans of time, counted in whole nanoseconds.

use vstd::prelude::*;

verus! {

/// The largest span a [`Duration`] holds: `u64::MAX` whole seconds
/// and `999_999_999` nanoseconds, as in the standard library.
pub const MAX_NANOS: u128 = 18_446_744_073_709_551_615_999_999_999u128;

/// Nanoseconds in one second.
pub const NANOS_PER_SEC: u128 = 1_000_000_000u128;

/// Nanoseconds in one millisecond.
pub const NANOS_PER_MILLI: u128 = 1_000_000u128;

/// A span of time with nanosecond precision.
///
/// It covers the same range as `std::time::Duration`: from zero up to
/// `u64::MAX` seconds and `999_999_999` nanoseconds.
#[derive(Clone, Copy, Debug, PartialEq, Eq, PartialOrd, Ord, Hash, Structural)]
pub struct Duration {
    nanos: u128,
}

impl Duration {
    /// Every span lies between zero and [`MAX_NANOS`].
    #[verifier::type_invariant]
    pub open spec fn in_range(self) -> bool {
        self@ <= MAX_NANOS
    }

    /// The span in nanoseconds.
    pub closed spec fn spec_nanos(self) -> nat {
        self.nanos as nat
    }

    /// The empty span.
    pub fn zero() -> (d: Duration)
        ensures
            d@ == 0,
    {
        Duration { nanos: 0 }
    }

    /// The longest span there is.
    pub fn maximum() -> (d: Duration)
        ensures
            d@ == MAX_NANOS,
    {
        Duration { nanos: MAX_NANOS }
    }

    /// A span of `nanos` nanoseconds.
    pub fn from_nanos(nanos: u64) -> (d: Duration)
        ensures
            d@ == nanos,
    {
        Duration { nanos: nanos as u128 }
    }

    /// A span of `micros` microseconds.
    pub fn from_micros(micros: u64) -> (d: Duration)
        ensures
            d@ == micros * 1000,
    {
        assert(micros * 1000 <= MAX_NANOS) by (nonlinear_arith)
            requires
                micros <= u64::MAX,
        ;
        Duration { nanos: micros as u128 * 1000 }
    }

    /// A span of `millis` milliseconds.
    pub fn from_millis(millis: u64) -> (d: Duration)
        ensures
            d@ == millis * NANOS_PER_MILLI,
    {
        assert(millis * NANOS_PER_MILLI <= MAX_NANOS) by (nonlinear_arith)
            requires
                millis <= u64::MAX,
        ;
        Duration { nanos: millis as u128 * NANOS_PER_MILLI }
    }

    /// A span of `secs` whole seconds.
    pub fn from_secs(secs: u64) -> (d: Duration)
        ensures
            d@ == secs * NANOS_PER_SEC,
    {
        assert(secs * NANOS_PER_SEC <= MAX_NANOS) by (nonlinear_arith)
            requires
                secs <= u64::MAX,
        ;
        Duration { nanos: secs as u128 * NANOS_PER_SEC }
    }

    /// A span of `secs` seconds and `nanos` nanoseconds.
    /// Nanoseconds past a whole second carry over into the seconds.
    pub fn new(secs: u64, nanos: u32) -> (d: Duration)
        requires
            secs * NANOS_PER_SEC + nanos <= MAX_NANOS,
        ensures
            d@ == secs * NANOS_PER_SEC + nanos,
    {
        assert(secs * NANOS_PER_SEC <= MAX_NANOS);
        Duration { nanos: secs as u128 * NANOS_PER_SEC + nanos as u128 }
    }

    /// The span in nanoseconds.
    pub fn as_nanos(&self) -> (n: u128)
        ensures
            n == self@,
    {
        self.nanos
    }

    /// The span in whole milliseconds, rounded down.
    pub fn as_millis(&self) -> (n: u128)
        ensures
            n == self@ / (NANOS_PER_MILLI as nat),
    {
        self.nanos / NANOS_PER_MILLI
    }

    /// The number of whole seconds in the span.
    pub fn as_secs(&self) -> (n: u64)
        ensures
            n == self@ / (NANOS_PER_SEC as nat),
    {
        proof {
            use_type_invariant(self);
        }
        (self.nanos / NANOS_PER_SEC) as u64
    }

    /// The nanoseconds past the whole seconds of the span.
    pub fn subsec_nanos(&self) -> (n: u32)
        ensures
            n == self@ % (NANOS_PER_SEC as nat),
    {
        (self.nanos % NANOS_PER_SEC) as u32
    }

    /// Returns whether the span is empty.
    pub fn is_zero(&self) -> (b: bool)
        ensures
            b == (self@ == 0),
    {
        self.nanos == 0
    }

    /// The sum of two spans, or `None` when it is too long to hold.
    pub fn checked_add(self, other: Duration) -> (sum: Option<Duration>)
        ensures
            sum is Some <==> self@ + other@ <= MAX_NANOS,
            sum matches Some(d) ==> d@ == self@ + other@,
    {
        proof {
            use_type_invariant(self);
            use_type_invariant(other);
        }
        if other.nanos <= MAX_NANOS - self.nanos {
            Some(Duration { nanos: self.nanos + other.nanos })
        } else {
            None
        }
    }

    /// The difference of two spans, or `None` when `other` is longer.
    pub fn checked_sub(self, other: Duration) -> (difference: Option<Duration>)
        ensures
            difference is Some <==> other@ <= self@,
            difference matches Some(d) ==> d@ == self@ - other@,
    {
        proof {
            use_type_invariant(self);
        }
        if other.nanos <= self.nanos {
            Some(Duration { nanos: self.nanos - other.nanos })
        } else {
            None
        }
    }

    /// The sum of two spans, capped at the longest span there is.
    pub fn saturating_add(self, other: Duration) -> (sum: Duration)
        ensures
            sum@ == if self@ + other@ <= MAX_NANOS {
                self@ + other@
            } else {
                MAX_NANOS as nat
            },
    {
        match self.checked_add(other) {
            Some(d) => d,
            None => Duration::maximum(),
        }
    }

    /// The difference of two spans, or zero when `other` is longer.
    pub fn saturating_sub(self, other: Duration) -> (difference: Duration)
        ensures
            difference@ == if other@ <= self@ {
                self@ - other@
            } else {
                0
            },
    {
        match self.checked_sub(other) {
            Some(d) => d,
            None => Duration::zero(),
        }
    }

    /// Returns whether `self` is shorter than `other`.
    pub fn shorter_than(&self, other: &Duration) -> (b: bool)
        ensures
            b == (self@ < other@),
    {
        self.nanos < other.nanos
    }
}

impl View for Duration {
    type V = nat;

    open spec fn view(&self) -> nat {
        self.spec_nanos()
    }
}

} // verus!
