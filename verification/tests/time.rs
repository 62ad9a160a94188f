use tokio_with_wasm::time::duration::{MAX_NANOS, NANOS_PER_MILLI};
use tokio_with_wasm::time::instant::FAR_FUTURE_SECS;
use tokio_with_wasm::time::interval::TICK_MARGIN_MILLIS;
use tokio_with_wasm::time::sleep::{MAX_TIMER_MILLIS, timer_millis};
use tokio_with_wasm::time::timeout::timeout_outcome;
use tokio_with_wasm::time::{
    Duration, Elapsed, Instant, MissedTickBehavior, MonotonicClock, SleepStep, interval,
    interval_at, sleep, sleep_until, timeout, timeout_at,
};

fn at(millis: u64) -> Instant {
    Instant::from_epoch(Duration::from_millis(millis))
}

fn millis(n: u64) -> Duration {
    Duration::from_millis(n)
}

#[test]
fn durations_convert_between_units() {
    assert_eq!(Duration::from_secs(2).as_millis(), 2000);
    assert_eq!(Duration::from_micros(1500).as_nanos(), 1_500_000);
    assert_eq!(Duration::new(1, 500_000_000).as_nanos(), 1_500_000_000);
    assert_eq!(Duration::new(3, 250).subsec_nanos(), 250);
    assert_eq!(Duration::new(3, 250).as_secs(), 3);
    assert!(Duration::zero().is_zero());
    assert!(!Duration::from_nanos(1).is_zero());
    assert_eq!(Duration::maximum().as_nanos(), MAX_NANOS);
}

#[test]
fn duration_arithmetic_checks_and_saturates() {
    assert_eq!(millis(3).checked_add(millis(4)), Some(millis(7)));
    assert_eq!(Duration::maximum().checked_add(Duration::from_nanos(1)), None);
    assert_eq!(millis(3).checked_sub(millis(4)), None);
    assert_eq!(millis(7).checked_sub(millis(4)), Some(millis(3)));
    assert_eq!(millis(3).saturating_sub(millis(4)), Duration::zero());
    assert_eq!(Duration::maximum().saturating_add(millis(1)), Duration::maximum());
    assert!(millis(3).shorter_than(&millis(4)));
    assert!(!millis(4).shorter_than(&millis(4)));
}

#[test]
fn the_clock_never_runs_backwards() {
    let mut clock = MonotonicClock::new();
    let first = Instant::now(&mut clock, millis(100));
    let second = Instant::now(&mut clock, millis(50));
    let third = Instant::now(&mut clock, millis(150));
    assert_eq!(first, at(100));
    assert_eq!(second, at(100));
    assert_eq!(third, at(150));
    assert!(!second.is_before(&first));
}

#[test]
fn instant_arithmetic_round_trips() {
    let base = at(100);
    let later = base.checked_add(millis(250)).unwrap();
    assert_eq!(later, at(350));
    assert_eq!(later.checked_sub(millis(250)), Some(base));
    assert_eq!(base.plus(millis(5)).minus(millis(5)), base);
    assert_eq!(at(10).checked_sub(millis(20)), None);
    assert_eq!(Instant::from_epoch(Duration::maximum()).checked_add(millis(1)), None);
    assert_eq!(later.since_epoch(), millis(350));
}

#[test]
fn duration_since_saturates_at_zero() {
    assert_eq!(at(300).duration_since(at(100)), millis(200));
    assert_eq!(at(100).duration_since(at(300)), Duration::zero());
    assert_eq!(at(100).saturating_duration_since(at(300)), Duration::zero());
    assert_eq!(at(100).checked_duration_since(at(300)), None);
    assert_eq!(at(300).checked_duration_since(at(100)), Some(millis(200)));
    assert_eq!(at(100).elapsed(at(160)), millis(60));
    assert_eq!(at(100).elapsed(at(60)), Duration::zero());
}

#[test]
fn far_future_is_thirty_years_away() {
    let far = Instant::far_future(at(0));
    assert_eq!(far.since_epoch(), Duration::from_secs(FAR_FUTURE_SECS));
    let last = Instant::from_epoch(Duration::maximum());
    assert_eq!(Instant::far_future(last), last);
}

#[test]
fn timers_round_up_to_whole_milliseconds() {
    assert_eq!(timer_millis(Duration::zero()), 0);
    assert_eq!(timer_millis(Duration::from_nanos(1)), 1);
    assert_eq!(timer_millis(millis(5)), 5);
    assert_eq!(timer_millis(Duration::from_nanos(5 * NANOS_PER_MILLI as u64 + 1)), 6);
    assert_eq!(timer_millis(Duration::from_secs(3_000_000)), MAX_TIMER_MILLIS);
}

#[test]
fn a_sleep_arms_one_timer_and_completes_at_its_deadline() {
    let mut nap = sleep(at(0), millis(100));
    assert_eq!(nap.deadline(), at(100));
    assert!(!nap.is_armed());
    assert_eq!(nap.poll_step(at(10)), SleepStep::Arm(90));
    assert!(nap.is_armed());
    assert_eq!(nap.poll_step(at(20)), SleepStep::Wait);
    nap.timer_fired();
    assert!(!nap.is_armed());
    // A timer that fires early proves nothing: the deadline decides.
    assert_eq!(nap.poll_step(at(99)), SleepStep::Arm(1));
    assert!(!nap.is_elapsed(at(99)));
    assert!(nap.is_elapsed(at(100)));
    assert_eq!(nap.poll_step(at(100)), SleepStep::Ready);
    assert!(!nap.is_armed());
}

#[test]
fn resetting_a_sleep_lets_go_of_its_timer() {
    let mut nap = sleep_until(at(50));
    assert_eq!(nap.poll_step(at(0)), SleepStep::Arm(50));
    nap.reset(at(80));
    assert!(!nap.is_armed());
    assert_eq!(nap.deadline(), at(80));
    assert_eq!(nap.poll_step(at(0)), SleepStep::Arm(80));
}

#[test]
fn a_sleep_past_the_last_instant_waits_thirty_years() {
    let last = Instant::from_epoch(Duration::maximum());
    let nap = sleep(last, millis(1));
    assert_eq!(nap.deadline(), Instant::far_future(last));
}

#[test]
fn a_timeout_keeps_the_output_that_beats_its_deadline() {
    assert_eq!(timeout_outcome(Some(5), false), Some(Ok(5)));
    assert_eq!(timeout_outcome(Some(5), true), Some(Ok(5)));
    assert_eq!(timeout_outcome::<i32>(None, true), Some(Err(Elapsed::new())));
    assert_eq!(timeout_outcome::<i32>(None, false), None);
    assert_eq!(Elapsed::new().description(), "deadline has elapsed");
}

#[test]
fn a_timeout_holds_its_future_and_deadline() {
    let mut limited = timeout(at(10), millis(40), 7u8);
    assert_eq!(*limited.get_ref(), 7);
    *limited.get_mut() = 9;
    assert_eq!(limited.delay().deadline(), at(50));
    assert_eq!(limited.delay_mut().poll_step(at(50)), SleepStep::Ready);
    assert_eq!(limited.into_inner(), 9);
    let fixed = timeout_at(at(70), ());
    assert_eq!(fixed.delay().deadline(), at(70));
}

#[test]
fn ticks_report_their_scheduled_instants() {
    let mut ticker = interval(at(0), millis(100));
    assert_eq!(ticker.poll_tick(at(0)), Some(at(0)));
    assert_eq!(ticker.poll_tick(at(50)), None);
    // A tick seen within the margin keeps the schedule.
    assert_eq!(ticker.poll_tick(at(100 + TICK_MARGIN_MILLIS)), Some(at(100)));
    assert_eq!(ticker.deadline(), at(200));
    assert_eq!(ticker.poll_tick(at(201)), Some(at(200)));
    assert_eq!(ticker.deadline(), at(300));
}

#[test]
fn interval_at_starts_at_the_given_instant() {
    let mut ticker = interval_at(at(200), millis(100));
    assert_eq!(ticker.poll_tick(at(150)), None);
    assert_eq!(ticker.poll_delay(at(150)), SleepStep::Arm(50));
    assert_eq!(ticker.poll_delay(at(160)), SleepStep::Wait);
    ticker.delay_timer_fired();
    assert_eq!(ticker.poll_delay(at(200)), SleepStep::Ready);
    assert_eq!(ticker.poll_tick(at(200)), Some(at(200)));
}

#[test]
fn an_interval_timer_waits_for_the_time_left() {
    let mut ticker = interval_at(at(200), millis(100));
    assert_eq!(ticker.poll_delay(at(130)), SleepStep::Arm(70));
    // A timer that fired early is armed again for what is left.
    ticker.delay_timer_fired();
    assert_eq!(ticker.poll_delay(at(199)), SleepStep::Arm(1));
    assert_eq!(ticker.poll_tick(at(200)), Some(at(200)));
    assert_eq!(ticker.poll_delay(at(210)), SleepStep::Arm(90));
}

#[test]
fn burst_delivers_missed_ticks_on_the_first_schedule() {
    let mut ticker = interval(at(0), millis(100));
    assert_eq!(ticker.missed_tick_behavior(), MissedTickBehavior::Burst);
    assert_eq!(ticker.poll_tick(at(0)), Some(at(0)));
    assert_eq!(ticker.poll_tick(at(350)), Some(at(100)));
    assert_eq!(ticker.poll_tick(at(350)), Some(at(200)));
    assert_eq!(ticker.poll_tick(at(350)), Some(at(300)));
    assert_eq!(ticker.poll_tick(at(350)), None);
    assert_eq!(ticker.deadline(), at(400));
}

#[test]
fn delay_reschedules_from_the_late_tick() {
    let mut ticker = interval(at(0), millis(200));
    ticker.set_missed_tick_behavior(MissedTickBehavior::Delay);
    assert_eq!(ticker.missed_tick_behavior(), MissedTickBehavior::Delay);
    assert_eq!(ticker.poll_tick(at(0)), Some(at(0)));
    assert_eq!(ticker.poll_tick(at(500)), Some(at(200)));
    assert_eq!(ticker.deadline(), at(700));
}

#[test]
fn skip_stays_on_the_first_grid() {
    let mut ticker = interval_at(at(0), millis(200));
    ticker.set_missed_tick_behavior(MissedTickBehavior::Skip);
    assert_eq!(ticker.poll_tick(at(0)), Some(at(0)));
    assert_eq!(ticker.poll_tick(at(500)), Some(at(200)));
    assert_eq!(ticker.deadline(), at(600));
    assert_eq!(ticker.deadline().since_epoch().as_millis() % 200, 0);
}

#[test]
fn missed_tick_behaviors_pick_the_next_deadline() {
    let period = millis(100);
    assert_eq!(MissedTickBehavior::Burst.next_timeout(at(100), at(350), period), at(200));
    assert_eq!(MissedTickBehavior::Delay.next_timeout(at(100), at(350), period), at(450));
    assert_eq!(MissedTickBehavior::Skip.next_timeout(at(100), at(350), period), at(400));
    assert_eq!(MissedTickBehavior::default(), MissedTickBehavior::Burst);
}

#[test]
fn resets_move_the_next_tick() {
    let mut ticker = interval(at(0), millis(300));
    assert_eq!(ticker.poll_tick(at(0)), Some(at(0)));
    ticker.reset_immediately(at(10));
    assert_eq!(ticker.poll_tick(at(10)), Some(at(10)));
    ticker.reset_after(at(20), millis(300));
    assert_eq!(ticker.deadline(), at(320));
    ticker.reset_at(at(500));
    assert_eq!(ticker.poll_tick(at(499)), None);
    assert_eq!(ticker.poll_tick(at(500)), Some(at(500)));
    ticker.reset(at(600));
    assert_eq!(ticker.deadline(), at(900));
}

#[test]
fn the_period_is_reported_back() {
    let ticker = interval(at(0), millis(250));
    assert_eq!(ticker.period(), millis(250));
}

#[test]
fn a_backwards_clock_reading_is_clamped() {
    let mut clock = MonotonicClock::new();
    let latest = Instant::now(&mut clock, Duration::from_secs(5));
    // A reading older than the last one, as a jumping wall clock
    // produces, must not travel back in time.
    let earlier = latest.since_epoch().saturating_sub(Duration::from_secs(1));
    assert_eq!(clock.monotonic(earlier), latest.since_epoch());
}

#[test]
fn arithmetic_round_trips() {
    let base = at(1_000);
    let later = base.plus(Duration::from_secs(5));
    assert_eq!(later.duration_since(base), Duration::from_secs(5));
    assert_eq!(later.minus(Duration::from_secs(5)), base);
}

#[test]
fn checked_arithmetic_reports_overflow() {
    let base = at(1_000);
    assert_eq!(base.checked_add(Duration::maximum()), None);
    assert_eq!(base.checked_sub(Duration::from_secs(86400 * 365 * 100)), None);
    assert!(base.checked_add(Duration::from_secs(1)).is_some());
}

#[test]
fn elapsed_is_zero_for_future_instants() {
    let now = at(1_000);
    let future = now.plus(Duration::from_secs(60));
    assert_eq!(future.elapsed(now), Duration::zero());
}

#[test]
fn far_future_is_far() {
    let now = at(1_000);
    let far = Instant::far_future(now);
    assert!(far.duration_since(now).as_secs() > 86400 * 365);
}

#[test]
fn burst_keeps_the_original_schedule() {
    let start = at(1_000);
    let period = millis(100);
    // Three periods were missed; the next deadline stays on the grid,
    // right after the missed one.
    let now = start.plus(millis(350));
    assert_eq!(MissedTickBehavior::Burst.next_timeout(start, now, period), start.plus(period));
}

#[test]
fn delay_restarts_the_schedule_from_now() {
    let start = at(1_000);
    let period = millis(100);
    let now = start.plus(millis(350));
    assert_eq!(MissedTickBehavior::Delay.next_timeout(start, now, period), now.plus(period));
}

#[test]
fn skip_stays_on_the_grid() {
    let start = at(1_000);
    let period = millis(100);
    // 350ms late: the 100, 200, and 300ms ticks were missed,
    // so the next tick lands on the 400ms grid point.
    let now = start.plus(millis(350));
    assert_eq!(
        MissedTickBehavior::Skip.next_timeout(start, now, period),
        start.plus(millis(400))
    );
}

#[test]
fn the_default_behavior_is_burst() {
    assert_eq!(MissedTickBehavior::default(), MissedTickBehavior::Burst);
    let ticker = interval(at(0), millis(100));
    assert_eq!(ticker.missed_tick_behavior(), MissedTickBehavior::Burst);
    assert_eq!(ticker.period(), millis(100));
}
