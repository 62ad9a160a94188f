//! Deadlines that a future waits for.

use vstd::prelude::*;
use crate::time::duration::{Duration, NANOS_PER_MILLI};
use crate::time::instant::{Instant, spec_deadline_after};

verus! {

/// Web timers cut off at this many milliseconds: JavaScript stores the
/// delay of `setTimeout` in a 32-bit signed integer, and a longer delay
/// fires immediately instead of far in the future. Longer waits chain timers.
pub const MAX_TIMER_MILLIS: u32 = 2_147_483_647u32;

/// The delay of the one JavaScript timer that waits out `remaining`:
/// rounded up to whole milliseconds, so that the timer never fires before
/// the deadline, and capped at what a timer can hold.
pub open spec fn spec_timer_millis(remaining: nat) -> nat {
    let rounded_up = (remaining + 999_999nat) / 1_000_000nat;
    if rounded_up <= MAX_TIMER_MILLIS {
        rounded_up
    } else {
        MAX_TIMER_MILLIS as nat
    }
}

/// The delay in milliseconds of the one JavaScript timer that waits out
/// `remaining`.
pub fn timer_millis(remaining: Duration) -> (millis: u32)
    ensures
        millis == spec_timer_millis(remaining@),
{
    let nanos = remaining.as_nanos();
    proof {
        use_type_invariant(&remaining);
    }
    let rounded_up = nanos / NANOS_PER_MILLI + if nanos % NANOS_PER_MILLI == 0 { 0 } else { 1 };
    assert(rounded_up == (remaining@ + 999_999nat) / 1_000_000nat) by {
        let n = remaining@ as int;
        let q = n / (NANOS_PER_MILLI as int);
        let r = n % (NANOS_PER_MILLI as int);
        assert(n == q * 1_000_000 + r);
        assert(0 <= r < 1_000_000);
        if r == 0 {
            assert((n + 999_999) / 1_000_000 == q) by (nonlinear_arith)
                requires
                    n == q * 1_000_000,
            ;
        } else {
            assert((n + 999_999) / 1_000_000 == q + 1) by (nonlinear_arith)
                requires
                    n == q * 1_000_000 + r,
                    0 < r < 1_000_000,
            ;
        }
    }
    if rounded_up <= MAX_TIMER_MILLIS as u128 {
        rounded_up as u32
    } else {
        MAX_TIMER_MILLIS
    }
}

/// A timer armed for `spec_timer_millis(remaining)` never fires before
/// `remaining` has passed, unless the wait is longer than one timer can
/// hold; and it is never armed for zero milliseconds when time remains.
pub proof fn lemma_timer_never_fires_early(remaining: nat)
    ensures
        spec_timer_millis(remaining) < MAX_TIMER_MILLIS ==> spec_timer_millis(remaining)
            * NANOS_PER_MILLI >= remaining,
        remaining > 0 ==> spec_timer_millis(remaining) >= 1,
{
    let rounded_up = (remaining + 999_999) / 1_000_000;
    assert(rounded_up * 1_000_000 >= remaining) by (nonlinear_arith)
        requires
            rounded_up == (remaining + 999_999) / 1_000_000,
            remaining >= 0,
    ;
    assert(remaining > 0 ==> rounded_up >= 1) by (nonlinear_arith)
        requires
            rounded_up == (remaining + 999_999) / 1_000_000,
            remaining >= 0,
    ;
}

/// What a sleeping future does next.
#[derive(Clone, Copy, Debug, PartialEq, Eq, Structural)]
pub enum SleepStep {
    /// The deadline has been reached; the future completes.
    Ready,
    /// No timer is running: start one that fires after this many
    /// milliseconds, then wait on it.
    Arm(u32),
    /// A timer is already running; wait on it.
    Wait,
}

/// Future state returned by [`sleep`] and [`sleep_until`]: the deadline,
/// and whether a JavaScript timer aiming at it is running.
///
/// The timer itself is started by whoever drives this state, when
/// [`Sleep::poll_step`] asks for one.
#[derive(Debug)]
pub struct Sleep {
    deadline: Instant,
    timer_armed: bool,
}

/// Waits until `duration` has elapsed from `now`.
///
/// A deadline past the last representable instant becomes one thirty years
/// away, which no page lives to see.
pub fn sleep(now: Instant, duration: Duration) -> (s: Sleep)
    ensures
        s.spec_deadline()@ == spec_deadline_after(now@, duration@),
        !s.spec_timer_armed(),
{
    let deadline = match now.checked_add(duration) {
        Some(deadline) => deadline,
        None => Instant::far_future(now),
    };
    sleep_until(deadline)
}

/// Waits until `deadline` is reached.
pub fn sleep_until(deadline: Instant) -> (s: Sleep)
    ensures
        s.spec_deadline() == deadline,
        !s.spec_timer_armed(),
{
    Sleep { deadline, timer_armed: false }
}

impl Sleep {
    /// The instant at which the future completes.
    pub closed spec fn spec_deadline(&self) -> Instant {
        self.deadline
    }

    /// Whether a timer aiming at the deadline is running.
    pub closed spec fn spec_timer_armed(&self) -> bool {
        self.timer_armed
    }

    /// Returns the instant at which the future will complete.
    pub fn deadline(&self) -> (deadline: Instant)
        ensures
            deadline == self.spec_deadline(),
    {
        self.deadline
    }

    /// Returns whether the deadline has been reached at `now`.
    pub fn is_elapsed(&self, now: Instant) -> (elapsed: bool)
        ensures
            elapsed == (self.spec_deadline()@ <= now@),
    {
        !now.is_before(&self.deadline)
    }

    /// Returns whether a timer aiming at the deadline is running.
    pub fn is_armed(&self) -> (armed: bool)
        ensures
            armed == self.spec_timer_armed(),
    {
        self.timer_armed
    }

    /// Resets the future to a new deadline.
    ///
    /// A running timer aims at the old deadline, so it is let go of;
    /// the next poll starts a new one.
    pub fn reset(&mut self, deadline: Instant)
        ensures
            final(self).spec_deadline() == deadline,
            !final(self).spec_timer_armed(),
    {
        self.deadline = deadline;
        self.timer_armed = false;
    }

    /// Decides what a poll at `now` does.
    ///
    /// The deadline decides on its own whether the future completes: web
    /// timers only count whole milliseconds and cap out at 32 bits, so a
    /// timer that fires is no proof that the deadline has passed.
    pub fn poll_step(&mut self, now: Instant) -> (step: SleepStep)
        ensures
            old(self).spec_deadline()@ <= now@ ==> step == SleepStep::Ready
                && !final(self).spec_timer_armed(),
            now@ < old(self).spec_deadline()@ && !old(self).spec_timer_armed() ==> step
                == SleepStep::Arm(spec_timer_millis((old(self).spec_deadline()@ - now@) as nat) as u32)
                && final(self).spec_timer_armed(),
            now@ < old(self).spec_deadline()@ && old(self).spec_timer_armed() ==> step
                == SleepStep::Wait && final(self).spec_timer_armed(),
            final(self).spec_deadline() == old(self).spec_deadline(),
    {
        if !now.is_before(&self.deadline) {
            self.timer_armed = false;
            SleepStep::Ready
        } else if !self.timer_armed {
            self.timer_armed = true;
            SleepStep::Arm(timer_millis(self.deadline.saturating_duration_since(now)))
        } else {
            SleepStep::Wait
        }
    }

    /// Records that the running timer fired.
    pub fn timer_fired(&mut self)
        ensures
            final(self).spec_deadline() == old(self).spec_deadline(),
            !final(self).spec_timer_armed(),
    {
        self.timer_armed = false;
    }
}

} // verus!
