//! Utilities for tracking time: instants from a monotonic clock,
//! deadlines, timeouts and interval schedules.

pub mod duration;
pub mod error;
pub mod instant;
pub mod sleep;
pub mod timeout;

pub use duration::Duration;
pub use error::Elapsed;
pub use instant::{Instant, MonotonicClock};
pub use sleep::{Sleep, SleepStep, sleep, sleep_until};
pub use timeout::{Timeout, timeout, timeout_at};
pub mod interval;

pub use interval::{Interval, MissedTickBehavior, interval, interval_at};
