//! Task bookkeeping: identifiers, join errors, cancellation flags, the
//! cooperative budget, task sets and the pool of blocking web workers.

pub mod builder;
pub mod coop;
pub mod flags;
pub mod id;
pub mod join_error;
pub mod join_set;
pub mod pool;

pub use builder::Builder;
pub use coop::{CoopBudget, Unconstrained, unconstrained};
pub use flags::TaskFlags;
pub use id::{Id, IdCounter, TaskScope, id, try_id};
pub use pool::{Assignment, IdleWorker, MAX_WORKERS, Reclaimed, WorkerPool};
pub use join_set::{AbortTask, JoinPoll, JoinSet};
pub use join_error::{JoinError, settle, start_blocking};
