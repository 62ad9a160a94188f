//! A monotonic clock and the instants it hands out.

use vstd::prelude::*;
use crate::time::duration::{Duration, MAX_NANOS, NANOS_PER_SEC};

verus! {

/// Seconds in the thirty years that stand for "no deadline at all".
pub const FAR_FUTURE_SECS: u64 = 946_080_000u64;

/// The reading a clock hands out after it has handed out `last` and
/// reads `reading`: never less than anything handed out before.
pub open spec fn monotonic_reading(last: nat, reading: nat) -> nat {
    if reading < last {
        last
    } else {
        reading
    }
}

/// Thirty years after `now`, or the last instant there is if that is sooner.
pub open spec fn spec_far_future(now: nat) -> int {
    if now + FAR_FUTURE_SECS * NANOS_PER_SEC <= MAX_NANOS {
        now + FAR_FUTURE_SECS * NANOS_PER_SEC
    } else {
        MAX_NANOS as int
    }
}

/// The instant `duration` after `now`, or [`spec_far_future`] when that
/// lies past the last instant there is.
pub open spec fn spec_deadline_after(now: nat, duration: nat) -> int {
    if now + duration <= MAX_NANOS {
        (now + duration) as int
    } else {
        spec_far_future(now)
    }
}

/// The time from `earlier` to `later`, or zero when `earlier` is the later
/// of the two.
pub open spec fn spec_duration_between(earlier: nat, later: nat) -> nat {
    if earlier <= later {
        (later - earlier) as nat
    } else {
        0
    }
}

/// Clamps clock readings so that the instants handed out never go back.
///
/// A wall clock can jump backwards; the instants built from it must not.
#[derive(Debug)]
pub struct MonotonicClock {
    last: Duration,
}

impl MonotonicClock {
    /// The largest reading handed out so far.
    pub closed spec fn spec_last(&self) -> nat {
        self.last@
    }

    /// A clock that has handed out nothing yet.
    pub fn new() -> (clock: MonotonicClock)
        ensures
            clock.spec_last() == 0,
    {
        MonotonicClock { last: Duration::zero() }
    }

    /// Clamps a clock reading to the largest one seen so far,
    /// and remembers the result.
    pub fn monotonic(&mut self, since_epoch: Duration) -> (clamped: Duration)
        ensures
            clamped@ == monotonic_reading(old(self).spec_last(), since_epoch@),
            final(self).spec_last() == clamped@,
    {
        let clamped = if since_epoch.shorter_than(&self.last) {
            self.last
        } else {
            since_epoch
        };
        self.last = clamped;
        clamped
    }
}

/// A measurement of a monotonically nondecreasing clock,
/// counted from the JavaScript time origin.
#[derive(Clone, Copy, Debug, PartialEq, Eq, PartialOrd, Ord, Hash, Structural)]
pub struct Instant {
    since_epoch: Duration,
}

impl View for Instant {
    type V = nat;

    closed spec fn view(&self) -> nat {
        self.since_epoch@
    }
}

impl Instant {
    /// Every instant lies within the range of a [`Duration`].
    #[verifier::type_invariant]
    pub open spec fn in_range(self) -> bool {
        self@ <= MAX_NANOS
    }

    /// Returns the instant that the clock reads now,
    /// given the time since the time origin that the clock reports.
    ///
    /// The instant is never earlier than any instant the same clock
    /// handed out before.
    pub fn now(clock: &mut MonotonicClock, reading: Duration) -> (instant: Instant)
        ensures
            instant@ == monotonic_reading(old(clock).spec_last(), reading@),
            final(clock).spec_last() == instant@,
    {
        let since_epoch = clock.monotonic(reading);
        proof {
            use_type_invariant(&since_epoch);
        }
        Instant { since_epoch }
    }

    /// The instant that lies `since_epoch` after the time origin.
    pub fn from_epoch(since_epoch: Duration) -> (instant: Instant)
        ensures
            instant@ == since_epoch@,
    {
        proof {
            use_type_invariant(&since_epoch);
        }
        Instant { since_epoch }
    }

    /// The time from the time origin to this instant.
    pub fn since_epoch(&self) -> (d: Duration)
        ensures
            d@ == self@,
    {
        self.since_epoch
    }

    /// A deadline for waits without a real deadline: thirty years after
    /// `now`, or the last instant there is if that is sooner.
    pub fn far_future(now: Instant) -> (far: Instant)
        ensures
            far@ == spec_far_future(now@),
    {
        Instant { since_epoch: now.since_epoch.saturating_add(Duration::from_secs(FAR_FUTURE_SECS)) }
    }

    /// Returns the amount of time elapsed from another instant to this one, or
    /// zero duration if that instant is later than this one.
    pub fn duration_since(&self, earlier: Instant) -> (d: Duration)
        ensures
            d@ == spec_duration_between(earlier@, self@),
    {
        self.saturating_duration_since(earlier)
    }

    /// Returns the amount of time elapsed from another instant to this one, or
    /// `None` if that instant is later than this one.
    pub fn checked_duration_since(&self, earlier: Instant) -> (d: Option<Duration>)
        ensures
            d is Some <==> earlier@ <= self@,
            d matches Some(d) ==> d@ == self@ - earlier@,
    {
        self.since_epoch.checked_sub(earlier.since_epoch)
    }

    /// Returns the amount of time elapsed from another instant to this one, or
    /// zero duration if that instant is later than this one.
    pub fn saturating_duration_since(&self, earlier: Instant) -> (d: Duration)
        ensures
            d@ == spec_duration_between(earlier@, self@),
    {
        self.since_epoch.saturating_sub(earlier.since_epoch)
    }

    /// Returns the amount of time elapsed from this instant to `now`,
    /// or zero duration if this instant lies after `now`.
    pub fn elapsed(&self, now: Instant) -> (d: Duration)
        ensures
            d@ == spec_duration_between(self@, now@),
    {
        now.saturating_duration_since(*self)
    }

    /// Returns `Some(t)` where `t` is the time `self + duration` if `t` can be
    /// represented as `Instant`, `None` otherwise.
    pub fn checked_add(&self, duration: Duration) -> (later: Option<Instant>)
        ensures
            later is Some <==> self@ + duration@ <= MAX_NANOS,
            later matches Some(t) ==> t@ == self@ + duration@,
    {
        match self.since_epoch.checked_add(duration) {
            Some(since_epoch) => {
                proof {
                    use_type_invariant(&since_epoch);
                }
                Some(Instant { since_epoch })
            },
            None => None,
        }
    }

    /// Returns `Some(t)` where `t` is the time `self - duration` if `t` can be
    /// represented as `Instant`, `None` otherwise.
    pub fn checked_sub(&self, duration: Duration) -> (earlier: Option<Instant>)
        ensures
            earlier is Some <==> duration@ <= self@,
            earlier matches Some(t) ==> t@ == self@ - duration@,
    {
        match self.since_epoch.checked_sub(duration) {
            Some(since_epoch) => {
                proof {
                    use_type_invariant(&since_epoch);
                }
                Some(Instant { since_epoch })
            },
            None => None,
        }
    }

    /// The instant `duration` after this one.
    /// The sum has to lie within the range of an instant.
    pub fn plus(&self, duration: Duration) -> (later: Instant)
        requires
            self@ + duration@ <= MAX_NANOS,
        ensures
            later@ == self@ + duration@,
    {
        match self.checked_add(duration) {
            Some(t) => t,
            None => *self,
        }
    }

    /// The instant `duration` before this one.
    /// The difference has to lie at or after the time origin.
    pub fn minus(&self, duration: Duration) -> (earlier: Instant)
        requires
            duration@ <= self@,
        ensures
            earlier@ == self@ - duration@,
    {
        match self.checked_sub(duration) {
            Some(t) => t,
            None => *self,
        }
    }

    /// Returns whether this instant lies before `other`.
    pub fn is_before(&self, other: &Instant) -> (b: bool)
        ensures
            b == (self@ < other@),
    {
        self.since_epoch.shorter_than(&other.since_epoch)
    }
}

/// An instant read from a clock is never earlier than one read before it
/// from the same clock, whatever the clock reported in between.
pub proof fn lemma_now_never_runs_backwards(last: nat, first_reading: nat, second_reading: nat)
    ensures
        monotonic_reading(last, first_reading) <= monotonic_reading(
            monotonic_reading(last, first_reading),
            second_reading,
        ),
        last <= monotonic_reading(last, first_reading),
{
}

/// Adding a duration to an instant and measuring back gives the duration,
/// and taking it away again gives the instant back.
pub proof fn lemma_instant_arithmetic_round_trips(base: nat, step: nat)
    requires
        base + step <= MAX_NANOS,
    ensures
        spec_duration_between(base, base + step) == step,
        (base + step) - step == base,
{
}

/// Measuring from a later instant to an earlier one gives zero, and the
/// time between two instants is the same whichever way it is not zero.
pub proof fn lemma_duration_since_saturates(earlier: nat, later: nat)
    requires
        earlier <= later,
    ensures
        spec_duration_between(later, earlier) == 0,
        spec_duration_between(earlier, later) + earlier == later,
{
}

} // verus!
