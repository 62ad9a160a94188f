//! Futures that give up at a deadline.

use vstd::prelude::*;
use crate::time::duration::Duration;
use crate::time::error::Elapsed;
use crate::time::instant::{Instant, spec_deadline_after};
use crate::time::sleep::{Sleep, sleep, sleep_until};

verus! {

/// Future state returned by [`timeout`] and [`timeout_at`]:
/// the future that has to complete, and the deadline it has to beat.
#[derive(Debug)]
pub struct Timeout<F> {
    value: F,
    delay: Sleep,
}

/// Requires `future` to complete before `duration` has elapsed from `now`.
pub fn timeout<F>(now: Instant, duration: Duration, future: F) -> (t: Timeout<F>)
    ensures
        t.spec_value() == future,
        t.spec_delay().spec_deadline()@ == spec_deadline_after(now@, duration@),
        !t.spec_delay().spec_timer_armed(),
{
    Timeout { value: future, delay: sleep(now, duration) }
}

/// Requires `future` to complete before `deadline` is reached.
pub fn timeout_at<F>(deadline: Instant, future: F) -> (t: Timeout<F>)
    ensures
        t.spec_value() == future,
        t.spec_delay().spec_deadline() == deadline,
        !t.spec_delay().spec_timer_armed(),
{
    Timeout { value: future, delay: sleep_until(deadline) }
}

/// What one poll of a timeout yields, given what the inner future yielded
/// and whether the deadline has passed: the inner future's output when it
/// has one, even past the deadline, [`Elapsed`] when it has none and the
/// deadline has passed, and nothing yet otherwise.
pub fn timeout_outcome<T>(output: Option<T>, deadline_passed: bool) -> (outcome: Option<
    Result<T, Elapsed>,
>)
    ensures
        output matches Some(value) ==> outcome == Some(Ok::<T, Elapsed>(value)),
        output is None && deadline_passed ==> outcome matches Some(Err(_)),
        output is None && !deadline_passed ==> outcome is None,
{
    match output {
        Some(value) => Some(Ok(value)),
        None => if deadline_passed {
            Some(Err(Elapsed::new()))
        } else {
            None
        },
    }
}

impl<F> Timeout<F> {
    /// The future that has to complete.
    pub closed spec fn spec_value(&self) -> F {
        self.value
    }

    /// The deadline it has to beat.
    pub closed spec fn spec_delay(&self) -> Sleep {
        self.delay
    }

    /// Gets a reference to the underlying value in this timeout.
    pub fn get_ref(&self) -> (value: &F)
        ensures
            *value == self.spec_value(),
    {
        &self.value
    }

    /// Gets a mutable reference to the underlying value in this timeout.
    pub fn get_mut(&mut self) -> (value: &mut F)
        ensures
            *value == old(self).spec_value(),
            final(self).spec_value() == *final(value),
            final(self).spec_delay() == old(self).spec_delay(),
    {
        &mut self.value
    }

    /// Consumes this timeout, returning the underlying value.
    pub fn into_inner(self) -> (value: F)
        ensures
            value == self.spec_value(),
    {
        self.value
    }

    /// The deadline this timeout waits for.
    pub fn delay(&self) -> (delay: &Sleep)
        ensures
            *delay == self.spec_delay(),
    {
        &self.delay
    }

    /// The deadline this timeout waits for, to be driven.
    pub fn delay_mut(&mut self) -> (delay: &mut Sleep)
        ensures
            *delay == old(self).spec_delay(),
            final(self).spec_delay() == *final(delay),
            final(self).spec_value() == old(self).spec_value(),
    {
        &mut self.delay
    }
}

} // verus!
