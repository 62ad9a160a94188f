//! The record of which tasks of a collection have completed, in
//! completion order.

use vstd::prelude::*;
use std::collections::VecDeque;
use std::task::Waker;

verus! {

/// Records which tasks of a collection have completed, in completion order.
///
/// Each spawned task gets a waker that, when the task completes, queues the
/// task's tag here through [`CompletionQueue::complete`] and wakes the
/// consumer. This lets task collections hand out results in true completion
/// order and learn about completions without polling every stored handle.
pub struct CompletionQueue<I> {
    ready: VecDeque<I>,
    consumer: Option<Waker>,
}

impl<I> CompletionQueue<I> {
    /// Tags of completed tasks, in the order they completed.
    pub closed spec fn spec_ready(&self) -> Seq<I> {
        self.ready@
    }

    /// The waker of the consumer awaiting the next completion, if one waits.
    pub closed spec fn spec_consumer(&self) -> Option<Waker> {
        self.consumer
    }

    /// An empty queue with no consumer waiting.
    pub fn new() -> (queue: CompletionQueue<I>)
        ensures
            queue.spec_ready() == Seq::<I>::empty(),
            queue.spec_consumer() is None,
    {
        CompletionQueue { ready: VecDeque::new(), consumer: None }
    }

    /// Pops the tag of the earliest completed task, if there is one.
    pub fn pop(&mut self) -> (popped: Option<I>)
        ensures
            old(self).spec_ready().len() == 0 ==> popped is None && final(self).spec_ready()
                == old(self).spec_ready(),
            old(self).spec_ready().len() > 0 ==> popped == Some(old(self).spec_ready()[0])
                && final(self).spec_ready() == old(self).spec_ready().drop_first(),
            final(self).spec_consumer() == old(self).spec_consumer(),
    {
        self.ready.pop_front()
    }

    /// Registers `waker` as the consumer's, in place of the waker of any
    /// earlier registration, to be woken by the next completion.
    pub fn register(&mut self, waker: Waker)
        ensures
            final(self).spec_ready() == old(self).spec_ready(),
            final(self).spec_consumer() == Some(waker),
    {
        self.consumer = Some(waker);
    }

    /// Pops the earliest completion, or registers `waker`, the consumer's
    /// waker of this call, if there is none yet; only the waker of the most
    /// recent registration is kept. Both happen under one lock, so a
    /// completion arriving from a web worker in between cannot be missed.
    pub fn pop_or_register(&mut self, waker: Waker) -> (popped: Option<I>)
        ensures
            old(self).spec_ready().len() == 0 ==> popped is None && final(self).spec_ready()
                == old(self).spec_ready() && final(self).spec_consumer() == Some(waker),
            old(self).spec_ready().len() > 0 ==> popped == Some(old(self).spec_ready()[0])
                && final(self).spec_ready() == old(self).spec_ready().drop_first()
                && final(self).spec_consumer() == old(self).spec_consumer(),
    {
        let popped = self.pop();
        if popped.is_none() {
            self.register(waker);
        }
        popped
    }

    /// Queues the tag of a task that just completed, and hands back the
    /// consumer's waker, if one waits, to be woken once the lock is let go.
    /// A consumer is woken once per registration.
    pub fn complete(&mut self, tag: I) -> (to_wake: Option<Waker>)
        ensures
            final(self).spec_ready() == old(self).spec_ready().push(tag),
            to_wake == old(self).spec_consumer(),
            final(self).spec_consumer() is None,
    {
        self.ready.push_back(tag);
        self.consumer.take()
    }
}

/// Tags come out in the order their tasks completed: completing `a` and
/// then `b` on an empty queue, and popping twice, gives `a` and then `b`.
pub proof fn lemma_tags_come_out_in_completion_order<I>(a: I, b: I)
    ensures
        ({
            let queued = Seq::<I>::empty().push(a).push(b);
            &&& queued[0] == a
            &&& queued.drop_first()[0] == b
            &&& queued.drop_first().drop_first().len() == 0
        }),
{
}

} // verus!
