//! Cancellation and completion state of one spawned task.

use vstd::prelude::*;
use std::task::Waker;
use crate::common::waker::{clone_waker, wakes_same_task};

verus! {

/// The flags of one spawned task, shared by its join handle, its abort
/// handles, and the task itself. It carries no type parameter, so an abort
/// handle can hold it without knowing the task's output type.
pub struct TaskFlags {
    cancelled: bool,
    finished: bool,
    waker: Option<Waker>,
}

/// What a task's flags hold, as plain values.
pub ghost struct FlagsView {
    pub cancelled: bool,
    pub finished: bool,
    pub waker: Option<Waker>,
}

impl View for TaskFlags {
    type V = FlagsView;

    open spec fn view(&self) -> FlagsView {
        FlagsView {
            cancelled: self.spec_cancelled(),
            finished: self.spec_finished(),
            waker: self.spec_waker(),
        }
    }
}

/// The flags after an abort: cancelled, with the waker handed over to be
/// woken.
pub open spec fn spec_after_cancel(v: FlagsView) -> FlagsView {
    FlagsView { cancelled: true, waker: None, ..v }
}

/// The flags after the task finished: finished, with the waker let go of.
pub open spec fn spec_after_finish(v: FlagsView) -> FlagsView {
    FlagsView { finished: true, waker: None, ..v }
}

/// Aborting a task that already finished wakes nothing: finishing lets go
/// of the waker that an abort would hand over, and the abort still marks
/// the task as cancelled without touching its finished flag.
pub proof fn lemma_aborting_a_finished_task_wakes_nothing(v: FlagsView)
    ensures
        spec_after_finish(v).waker is None,
        spec_after_cancel(spec_after_finish(v)).cancelled,
        spec_after_cancel(spec_after_finish(v)).finished,
{
}

impl TaskFlags {
    /// Whether the task was aborted.
    pub closed spec fn spec_cancelled(&self) -> bool {
        self.cancelled
    }

    /// Whether the task has finished.
    pub closed spec fn spec_finished(&self) -> bool {
        self.finished
    }

    /// The waker of the task, to be woken by a cancellation so that the
    /// task stops at its next poll.
    pub closed spec fn spec_waker(&self) -> Option<Waker> {
        self.waker
    }

    /// Flags of a task that is neither aborted nor finished,
    /// with no waker registered.
    pub fn new() -> (flags: TaskFlags)
        ensures
            !flags.spec_cancelled(),
            !flags.spec_finished(),
            flags.spec_waker() is None,
    {
        TaskFlags { cancelled: false, finished: false, waker: None }
    }

    /// Asks the task to stop, handing back its waker, if one is registered,
    /// to be woken once the lock is let go, so that the task notices.
    pub fn cancel(&mut self) -> (to_wake: Option<Waker>)
        ensures
            final(self)@ == spec_after_cancel(old(self)@),
            to_wake == old(self).spec_waker(),
    {
        self.cancelled = true;
        self.waker.take()
    }

    /// Returns whether the task was aborted, without registering anything.
    pub fn is_cancelled(&self) -> (cancelled: bool)
        ensures
            cancelled == self.spec_cancelled(),
    {
        self.cancelled
    }

    /// Returns whether the task was aborted, registering `waker` to be
    /// woken by a later cancellation otherwise. Both happen under one
    /// lock, so an abort from another thread cannot slip in between.
    pub fn cancelled_or_register(&mut self, waker: &Waker) -> (cancelled: bool)
        ensures
            cancelled == old(self).spec_cancelled(),
            final(self).spec_cancelled() == old(self).spec_cancelled(),
            final(self).spec_finished() == old(self).spec_finished(),
            cancelled ==> final(self).spec_waker() == old(self).spec_waker(),
            !cancelled ==> final(self).spec_waker() is Some,
    {
        if self.cancelled {
            return true;
        }
        let keep = match &self.waker {
            Some(stored) => wakes_same_task(stored, waker),
            None => false,
        };
        if !keep {
            self.waker = Some(clone_waker(waker));
        }
        false
    }

    /// Records that the task is done, right before its result is stored.
    /// A completed task has nothing left to cancel-wake, so its waker is
    /// handed back to be dropped once the lock is let go, rather than held
    /// for as long as a handle is.
    pub fn finish(&mut self) -> (stale: Option<Waker>)
        ensures
            final(self)@ == spec_after_finish(old(self)@),
            stale == old(self).spec_waker(),
    {
        self.finished = true;
        self.waker.take()
    }

    /// Returns whether the task has finished.
    pub fn is_finished(&self) -> (finished: bool)
        ensures
            finished == self.spec_finished(),
    {
        self.finished
    }
}

} // verus!
