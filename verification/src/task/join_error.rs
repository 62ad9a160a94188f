//! How a task that did not run to completion is reported, and how each
//! kind of spawned task arrives at its result.

use vstd::prelude::*;
use crate::task::id::Id;

verus! {

/// Returned when a task failed to execute to completion.
#[derive(Clone, Copy, Debug)]
pub struct JoinError {
    task_id: Id,
    cancelled: bool,
    panicked: bool,
}

/// What a join error records, as plain values.
pub ghost struct JoinErrorView {
    pub task_id: Id,
    pub cancelled: bool,
    pub panicked: bool,
}

impl View for JoinError {
    type V = JoinErrorView;

    open spec fn view(&self) -> JoinErrorView {
        JoinErrorView {
            task_id: self.spec_task_id(),
            cancelled: self.spec_cancelled(),
            panicked: self.spec_panicked(),
        }
    }
}

/// The error of task `id` that was aborted before it could finish.
pub open spec fn spec_cancelled_error(id: Id) -> JoinErrorView {
    JoinErrorView { task_id: id, cancelled: true, panicked: false }
}

/// The error of task `id` whose web worker died, which is what a panic
/// looks like on the web.
pub open spec fn spec_panicked_error(id: Id) -> JoinErrorView {
    JoinErrorView { task_id: id, cancelled: false, panicked: true }
}

impl JoinError {
    /// The task the error is about.
    pub closed spec fn spec_task_id(&self) -> Id {
        self.task_id
    }

    /// Whether the task was aborted.
    pub closed spec fn spec_cancelled(&self) -> bool {
        self.cancelled
    }

    /// Whether the task panicked.
    pub closed spec fn spec_panicked(&self) -> bool {
        self.panicked
    }

    /// Every error has exactly one cause: the task was aborted, or it
    /// panicked.
    #[verifier::type_invariant]
    spec fn has_one_cause(&self) -> bool {
        self.cancelled != self.panicked
    }

    /// The task was aborted before it could finish.
    pub fn cancelled(task_id: Id) -> (error: JoinError)
        ensures
            error@ == spec_cancelled_error(task_id),
    {
        JoinError { task_id, cancelled: true, panicked: false }
    }

    /// The web worker running the task died,
    /// which is what a panic looks like on the web.
    pub fn panicked(task_id: Id) -> (error: JoinError)
        ensures
            error@ == spec_panicked_error(task_id),
    {
        JoinError { task_id, cancelled: false, panicked: true }
    }

    /// Returns whether the error was caused by the task being cancelled.
    pub fn is_cancelled(&self) -> (cancelled: bool)
        ensures
            cancelled == self.spec_cancelled(),
            cancelled == !self.spec_panicked(),
    {
        proof {
            use_type_invariant(self);
        }
        self.cancelled
    }

    /// Returns whether the error was caused by the task panicking.
    ///
    /// A panic on `wasm32-unknown-unknown` cannot be caught and unwound,
    /// so a panicking blocking task takes down the web worker that runs
    /// it. That is reported here, but the panic payload is lost.
    pub fn is_panic(&self) -> (panicked: bool)
        ensures
            panicked == self.spec_panicked(),
            panicked == !self.spec_cancelled(),
    {
        proof {
            use_type_invariant(self);
        }
        self.panicked
    }

    /// Returns a task ID that identifies the task which errored relative to
    /// other currently spawned tasks.
    pub fn id(&self) -> (id: Id)
        ensures
            id == self.spec_task_id(),
    {
        self.task_id
    }

    /// The sentence that describes the error.
    pub fn description(&self) -> (text: &'static str)
        ensures
            text@ == spec_join_error_text(self@),
    {
        if self.cancelled {
            "task was cancelled"
        } else if self.panicked {
            "task panicked"
        } else {
            "task failed to execute to completion"
        }
    }
}

/// The sentence that describes a join error.
pub open spec fn spec_join_error_text(error: JoinErrorView) -> Seq<char> {
    if error.cancelled {
        "task was cancelled"@
    } else if error.panicked {
        "task panicked"@
    } else {
        "task failed to execute to completion"@
    }
}

/// What a join result stands for, as plain values.
pub open spec fn spec_result_view<T>(result: Result<T, JoinError>) -> Result<T, JoinErrorView> {
    match result {
        Ok(output) => Ok(output),
        Err(error) => Err(error@),
    }
}

/// The result of an asynchronous task `id` after one turn of the race
/// between the task and its abort signal: the task's own output wins when
/// it has one, even if an abort arrived too; otherwise an abort ends the
/// task as cancelled; otherwise nothing is decided yet.
pub open spec fn spec_settle<T>(id: Id, output: Option<T>, abort_arrived: bool) -> Option<
    Result<T, JoinErrorView>,
> {
    match output {
        Some(value) => Some(Ok(value)),
        None => if abort_arrived {
            Some(Err(spec_cancelled_error(id)))
        } else {
            None
        },
    }
}

/// Decides the result of an asynchronous task `id` after one turn of the
/// race between the task, which is polled first, and its abort signal.
/// `output` is what polling the task gave, and `abort_arrived` whether the
/// abort signal was there when it was polled next.
pub fn settle<T>(id: Id, output: Option<T>, abort_arrived: bool) -> (result: Option<
    Result<T, JoinError>,
>)
    ensures
        match result {
            Some(decided) => spec_settle(id, output, abort_arrived) == Some(
                spec_result_view(decided),
            ),
            None => spec_settle(id, output, abort_arrived) is None,
        },
{
    match output {
        Some(value) => Some(Ok(value)),
        None => if abort_arrived {
            Some(Err(JoinError::cancelled(id)))
        } else {
            None
        },
    }
}

/// Decides whether blocking task `id` still runs when a web worker picks
/// it up: an abort that came before that ends it as cancelled without
/// running it; once it runs, it cannot be aborted any more.
pub fn start_blocking(id: Id, abort_arrived: bool) -> (refused: Option<JoinError>)
    ensures
        abort_arrived ==> refused is Some && refused.unwrap()@ == spec_cancelled_error(id),
        !abort_arrived ==> refused is None,
{
    if abort_arrived {
        Some(JoinError::cancelled(id))
    } else {
        None
    }
}

/// A task that finishes with its output is never reported as failed, and
/// an abort decides the result only while the task has no output yet.
pub proof fn lemma_output_beats_a_late_abort<T>(id: Id, value: T, abort_arrived: bool)
    ensures
        spec_settle(id, Some(value), abort_arrived) == Some(Ok::<T, JoinErrorView>(value)),
        spec_settle::<T>(id, None, true) == Some(Err::<T, JoinErrorView>(spec_cancelled_error(id))),
        spec_settle::<T>(id, None, false) is None,
{
}

} // verus!
