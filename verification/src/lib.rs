//! Verified core of a `tokio`-style runtime for web browsers.
//!
//! Everything here is plain logic: clocks and deadlines, interval
//! schedules, path resolution, the buffering state machine of an open file,
//! the bookkeeping behind task handles, channels, task sets and the pool of
//! blocking web workers, and the arguments of the runtime's attribute
//! macros. The JavaScript calls, the shared handles and the `Future`
//! implementations that drive this logic live outside this crate.

pub mod common;
pub mod fs;
pub mod macros;
pub mod task;
pub mod time;
