//! Intervals: schedules of deadlines one period apart.

use vstd::prelude::*;
use crate::time::duration::{Duration, MAX_NANOS, NANOS_PER_MILLI};
use crate::time::instant::{Instant, spec_far_future};
use crate::time::sleep::{Sleep, SleepStep, sleep_until, spec_timer_millis};

verus! {

/// How late a tick may be before it counts as missed: JavaScript timers
/// always fire a little late, and that lateness is not a missed tick.
pub const TICK_MARGIN_MILLIS: u64 = 5u64;

/// Defines the behavior of an [`Interval`] when it misses a tick.
///
/// Generally, a tick is missed if too much time is spent without polling
/// the interval.
#[derive(Clone, Copy, Debug, PartialEq, Eq, Structural)]
pub enum MissedTickBehavior {
    /// Ticks as fast as possible until caught up, keeping the ticks on the
    /// schedule they would have had without the delay. This is the default.
    Burst,
    /// Ticks at multiples of the period from when the late tick was seen,
    /// rather than from the start.
    Delay,
    /// Skips missed ticks and ticks on the next multiple of the period from
    /// the start.
    Skip,
}

impl Default for MissedTickBehavior {
    fn default() -> (behavior: MissedTickBehavior)
        ensures
            behavior == MissedTickBehavior::Burst,
    {
        MissedTickBehavior::Burst
    }
}

/// How far the late tick lies past the missed one, in whole periods' worth
/// of remainder, capped at `u64::MAX` nanoseconds.
pub open spec fn spec_skip_offset(timeout: nat, now: nat, period: nat) -> nat {
    let late_by: nat = if timeout <= now { (now - timeout) as nat } else { 0 };
    let remainder = late_by % period;
    if remainder <= u64::MAX {
        remainder
    } else {
        u64::MAX as nat
    }
}

/// The deadline of the next tick after the tick due at `timeout` was seen
/// late, at `now`.
pub open spec fn spec_next_timeout(
    behavior: MissedTickBehavior,
    timeout: nat,
    now: nat,
    period: nat,
) -> int {
    match behavior {
        MissedTickBehavior::Burst => (timeout + period) as int,
        MissedTickBehavior::Delay => (now + period) as int,
        MissedTickBehavior::Skip => now + period - spec_skip_offset(timeout, now, period),
    }
}

/// Whether [`MissedTickBehavior::next_timeout`] stays within the range of an
/// instant for these values: the sum it computes must not overflow, and a
/// skipping schedule needs a period to divide by.
pub open spec fn spec_next_timeout_in_range(
    behavior: MissedTickBehavior,
    timeout: nat,
    now: nat,
    period: nat,
) -> bool {
    match behavior {
        MissedTickBehavior::Burst => timeout + period <= MAX_NANOS,
        MissedTickBehavior::Delay => now + period <= MAX_NANOS,
        MissedTickBehavior::Skip => period > 0 && now + period <= MAX_NANOS,
    }
}

impl MissedTickBehavior {
    /// If a tick is missed, this method is called to determine when the next
    /// tick should happen.
    pub fn next_timeout(&self, timeout: Instant, now: Instant, period: Duration) -> (next: Instant)
        requires
            spec_next_timeout_in_range(*self, timeout@, now@, period@),
        ensures
            next@ == spec_next_timeout(*self, timeout@, now@, period@),
    {
        match self {
            MissedTickBehavior::Burst => timeout.plus(period),
            MissedTickBehavior::Delay => now.plus(period),
            MissedTickBehavior::Skip => {
                let late_by = now.saturating_duration_since(timeout).as_nanos();
                let remainder = late_by % period.as_nanos();
                let offset: u64 = if remainder <= u64::MAX as u128 {
                    remainder as u64
                } else {
                    u64::MAX
                };
                let next_on_time = now.plus(period);
                let offset_duration = Duration::from_nanos(offset);
                assert(offset_duration@ <= next_on_time@);
                next_on_time.minus(offset_duration)
            },
        }
    }
}

/// A skipped tick lands back on the grid of the missed one: the next
/// deadline lies a whole number of periods after the missed deadline,
/// after the moment the miss was noticed, and at most one period later.
pub proof fn lemma_skip_stays_on_the_grid(timeout: nat, now: nat, period: nat)
    requires
        0 < period <= u64::MAX,
        timeout <= now,
    ensures
        ({
            let next = spec_next_timeout(MissedTickBehavior::Skip, timeout, now, period);
            &&& (next - timeout) % (period as int) == 0
            &&& now < next <= now + period
        }),
{
    let late_by = (now - timeout) as int;
    let p = period as int;
    let q = late_by / p;
    let r = late_by % p;
    assert(late_by == q * p + r && 0 <= r < p) by (nonlinear_arith)
        requires
            q == late_by / p,
            r == late_by % p,
            p > 0,
    ;
    assert(spec_skip_offset(timeout, now, period) == r);
    let next = now + period - r;
    assert(next - timeout == (q + 1) * p) by (nonlinear_arith)
        requires
            next == now + p - r,
            now - timeout == q * p + r,
    ;
    assert(((q + 1) * p) % p == 0) by (nonlinear_arith)
        requires
            p > 0,
    ;
}

/// A late tick under [`MissedTickBehavior::Burst`] keeps the first
/// schedule, and under [`MissedTickBehavior::Delay`] restarts it from the
/// moment the miss was noticed.
pub proof fn lemma_burst_and_delay_schedules(timeout: nat, now: nat, period: nat)
    ensures
        spec_next_timeout(MissedTickBehavior::Burst, timeout, now, period) == timeout + period,
        spec_next_timeout(MissedTickBehavior::Delay, timeout, now, period) == now + period,
{
}

/// An interval: a deadline for the next tick, the period between ticks,
/// and what to do when a tick is missed.
#[derive(Debug)]
pub struct Interval {
    delay: Sleep,
    period: Duration,
    missed_tick_behavior: MissedTickBehavior,
}

/// Creates an interval whose first tick completes at `now`, right away,
/// and whose ticks lie `period` apart.
pub fn interval(now: Instant, period: Duration) -> (ticker: Interval)
    requires
        period@ > 0,
    ensures
        ticker.spec_deadline() == now,
        ticker.spec_period() == period,
        ticker.spec_behavior() == MissedTickBehavior::Burst,
        ticker.wf(),
{
    interval_at(now, period)
}

/// Creates an interval whose first tick completes at `start`,
/// and whose ticks lie `period` apart.
pub fn interval_at(start: Instant, period: Duration) -> (ticker: Interval)
    requires
        period@ > 0,
    ensures
        ticker.spec_deadline() == start,
        ticker.spec_period() == period,
        ticker.spec_behavior() == MissedTickBehavior::Burst,
        ticker.wf(),
{
    Interval {
        delay: sleep_until(start),
        period,
        missed_tick_behavior: MissedTickBehavior::Burst,
    }
}

impl Interval {
    /// The deadline of the next tick.
    pub closed spec fn spec_deadline(&self) -> Instant {
        self.delay.spec_deadline()
    }

    /// The period between ticks.
    pub closed spec fn spec_period(&self) -> Duration {
        self.period
    }

    /// The strategy for missed ticks.
    pub closed spec fn spec_behavior(&self) -> MissedTickBehavior {
        self.missed_tick_behavior
    }

    /// Whether a timer aiming at the next deadline is running.
    pub closed spec fn spec_timer_armed(&self) -> bool {
        self.delay.spec_timer_armed()
    }

    /// An interval always has a period to divide by.
    pub open spec fn wf(&self) -> bool {
        self.spec_period()@ > 0
    }

    /// The deadline of the tick after the one due at `timeout`, seen at `now`.
    pub open spec fn spec_next_deadline(&self, timeout: nat, now: nat) -> int {
        if now > timeout + TICK_MARGIN_MILLIS * NANOS_PER_MILLI {
            spec_next_timeout(self.spec_behavior(), timeout, now, self.spec_period()@)
        } else if timeout + self.spec_period()@ <= MAX_NANOS {
            (timeout + self.spec_period()@) as int
        } else {
            spec_far_future(now)
        }
    }

    /// Whether a tick at `now` stays within the range of an instant:
    /// the margin added to a due deadline, and the next deadline after a
    /// missed one, must not overflow.
    pub open spec fn tick_in_range(&self, now: nat) -> bool {
        let timeout = self.spec_deadline()@;
        timeout <= now ==> {
            &&& timeout + TICK_MARGIN_MILLIS * NANOS_PER_MILLI <= MAX_NANOS
            &&& now > timeout + TICK_MARGIN_MILLIS * NANOS_PER_MILLI ==> spec_next_timeout_in_range(
                self.spec_behavior(),
                timeout,
                now,
                self.spec_period()@,
            )
        }
    }

    /// Polls for the next tick at `now`.
    ///
    /// Returns the tick's scheduled instant once its deadline has been
    /// reached, and schedules the tick after it: one period later, or,
    /// when the tick was seen more than a small margin late, wherever the
    /// missed-tick behavior puts it. Returns `None` while the deadline lies
    /// ahead; the deadline's timer is then driven with
    /// [`Interval::poll_delay`].
    pub fn poll_tick(&mut self, now: Instant) -> (tick: Option<Instant>)
        requires
            old(self).wf(),
            old(self).tick_in_range(now@),
        ensures
            final(self).wf(),
            final(self).spec_period() == old(self).spec_period(),
            final(self).spec_behavior() == old(self).spec_behavior(),
            now@ < old(self).spec_deadline()@ ==> tick is None && *final(self) == *old(self),
            old(self).spec_deadline()@ <= now@ ==> {
                &&& tick == Some(old(self).spec_deadline())
                &&& final(self).spec_deadline()@ == old(self).spec_next_deadline(
                    old(self).spec_deadline()@,
                    now@,
                )
                &&& !final(self).spec_timer_armed()
            },
    {
        if !self.delay.is_elapsed(now) {
            return None;
        }
        let timeout = self.delay.deadline();
        let margin = timeout.plus(Duration::from_millis(TICK_MARGIN_MILLIS));
        let next = if margin.is_before(&now) {
            self.missed_tick_behavior.next_timeout(timeout, now, self.period)
        } else {
            match timeout.checked_add(self.period) {
                Some(next) => next,
                None => Instant::far_future(now),
            }
        };
        self.delay.reset(next);
        Some(timeout)
    }

    /// Decides what waiting for the next deadline at `now` does; see
    /// [`Sleep::poll_step`].
    pub fn poll_delay(&mut self, now: Instant) -> (step: SleepStep)
        ensures
            final(self).spec_deadline() == old(self).spec_deadline(),
            final(self).spec_period() == old(self).spec_period(),
            final(self).spec_behavior() == old(self).spec_behavior(),
            old(self).spec_deadline()@ <= now@ ==> step == SleepStep::Ready
                && !final(self).spec_timer_armed(),
            now@ < old(self).spec_deadline()@ && !old(self).spec_timer_armed() ==> step
                == SleepStep::Arm(spec_timer_millis((old(self).spec_deadline()@ - now@) as nat) as u32)
                && final(self).spec_timer_armed(),
            now@ < old(self).spec_deadline()@ && old(self).spec_timer_armed() ==> step
                == SleepStep::Wait && final(self).spec_timer_armed(),
    {
        self.delay.poll_step(now)
    }

    /// Records that the timer aiming at the next deadline fired.
    pub fn delay_timer_fired(&mut self)
        ensures
            final(self).spec_deadline() == old(self).spec_deadline(),
            final(self).spec_period() == old(self).spec_period(),
            final(self).spec_behavior() == old(self).spec_behavior(),
            !final(self).spec_timer_armed(),
    {
        self.delay.timer_fired();
    }

    /// Resets the interval to complete one period after `now`.
    pub fn reset(&mut self, now: Instant)
        requires
            now@ + old(self).spec_period()@ <= MAX_NANOS,
        ensures
            final(self).spec_deadline()@ == now@ + old(self).spec_period()@,
            final(self).spec_period() == old(self).spec_period(),
            final(self).spec_behavior() == old(self).spec_behavior(),
            !final(self).spec_timer_armed(),
    {
        let deadline = now.plus(self.period);
        self.reset_at(deadline);
    }

    /// Resets the interval to complete at `now`, right away.
    pub fn reset_immediately(&mut self, now: Instant)
        ensures
            final(self).spec_deadline() == now,
            final(self).spec_period() == old(self).spec_period(),
            final(self).spec_behavior() == old(self).spec_behavior(),
            !final(self).spec_timer_armed(),
    {
        self.reset_at(now);
    }

    /// Resets the interval to complete `after` from `now`.
    pub fn reset_after(&mut self, now: Instant, after: Duration)
        requires
            now@ + after@ <= MAX_NANOS,
        ensures
            final(self).spec_deadline()@ == now@ + after@,
            final(self).spec_period() == old(self).spec_period(),
            final(self).spec_behavior() == old(self).spec_behavior(),
            !final(self).spec_timer_armed(),
    {
        self.reset_at(now.plus(after));
    }

    /// Resets the interval to complete at `deadline`. If the deadline lies
    /// in the past, the missed-tick behavior catches up.
    pub fn reset_at(&mut self, deadline: Instant)
        ensures
            final(self).spec_deadline() == deadline,
            final(self).spec_period() == old(self).spec_period(),
            final(self).spec_behavior() == old(self).spec_behavior(),
            !final(self).spec_timer_armed(),
    {
        self.delay.reset(deadline);
    }

    /// Returns the strategy for missed ticks.
    pub fn missed_tick_behavior(&self) -> (behavior: MissedTickBehavior)
        ensures
            behavior == self.spec_behavior(),
    {
        self.missed_tick_behavior
    }

    /// Sets the strategy for missed ticks.
    pub fn set_missed_tick_behavior(&mut self, behavior: MissedTickBehavior)
        ensures
            final(self).spec_behavior() == behavior,
            final(self).spec_deadline() == old(self).spec_deadline(),
            final(self).spec_period() == old(self).spec_period(),
            final(self).spec_timer_armed() == old(self).spec_timer_armed(),
    {
        self.missed_tick_behavior = behavior;
    }

    /// Returns the period of the interval.
    pub fn period(&self) -> (period: Duration)
        ensures
            period == self.spec_period(),
    {
        self.period
    }

    /// Returns the deadline of the next tick.
    pub fn deadline(&self) -> (deadline: Instant)
        ensures
            deadline == self.spec_deadline(),
    {
        self.delay.deadline()
    }
}

/// Ticks that are seen in time lie exactly one period apart: a tick seen
/// within the margin schedules the next one a period after itself.
pub proof fn lemma_ticks_seen_in_time_lie_one_period_apart(ticker: Interval, now: nat)
    requires
        ticker.spec_deadline()@ <= now <= ticker.spec_deadline()@ + TICK_MARGIN_MILLIS
            * NANOS_PER_MILLI,
        ticker.spec_deadline()@ + ticker.spec_period()@ <= MAX_NANOS,
    ensures
        ticker.spec_next_deadline(ticker.spec_deadline()@, now) == ticker.spec_deadline()@
            + ticker.spec_period()@,
{
}

} // verus!
