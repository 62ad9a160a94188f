//! State shared between a task and whoever waits on it: completion
//! queues, channels and task flags.
//!
//! Each type here is the state that one lock guards. Whoever holds the lock
//! calls into it, and wakes the wakers it hands back after letting go of the
//! lock, because waking can poll the waiting task again on the same thread.

pub mod completion_queue;
pub mod local_channel;
pub mod once_channel;
pub mod waker;

pub use completion_queue::CompletionQueue;
pub use local_channel::{LocalChannel, local_channel};
pub use once_channel::{OnceChannel, once_channel};
