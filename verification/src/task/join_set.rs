//! A collection of spawned tasks whose results come out in the order the
//! tasks complete.

use vstd::prelude::*;
use std::collections::HashMap;
use std::task::Waker;
use crate::common::completion_queue::CompletionQueue;
use vstd::std_specs::hash::spec_keys_iter;
use vstd::std_specs::iter::IteratorSpec;

verus! {

broadcast use vstd::std_specs::hash::group_hash_axioms;

/// Something that can be told to stop a task: the handle that a
/// [`JoinSet`] stores for each of its tasks.
pub trait AbortTask {
    /// Asks the task to stop.
    fn abort(&self);
}

/// The tasks of a collection that have not been joined yet, each under the
/// tag it was stored with, and the tag for the next task.
///
/// Each task's completion queues its tag in a [`CompletionQueue`], so
/// results are handed out in completion order. A tag can outlive its task
/// in that queue when the task was detached, so tags that no stored task
/// answers to are passed over.
pub struct JoinSet<H> {
    tasks: HashMap<u64, H>,
    next_tag: u64,
}

/// What came of polling a [`JoinSet`] for its next completed task.
pub enum JoinPoll<H> {
    /// A task completed; its handle left the set and holds the result.
    Ready(H),
    /// The set holds no tasks.
    Empty,
    /// Tasks are stored but none has completed; the waker was registered.
    Pending,
}

/// The completed tags in `queue` from the first one that a stored task,
/// one of `live`, answers to: the tags before it are stale.
pub open spec fn spec_skip_stale(queue: Seq<u64>, live: Set<u64>) -> Seq<u64>
    decreases queue.len(),
{
    if queue.len() == 0 {
        queue
    } else if live.contains(queue[0]) {
        queue
    } else {
        spec_skip_stale(queue.drop_first(), live)
    }
}

impl<H> JoinSet<H> {
    /// The stored tasks, by tag.
    pub closed spec fn spec_tasks(&self) -> Map<u64, H> {
        self.tasks@
    }

    /// The tag that the next stored task gets.
    pub closed spec fn spec_next_tag(&self) -> u64 {
        self.next_tag
    }

    #[verifier::type_invariant]
    spec fn tags_are_fresh(&self) -> bool {
        forall|tag: u64| #[trigger] self.tasks@.contains_key(tag) ==> tag < self.next_tag
    }

    /// Create a new, empty `JoinSet`.
    pub fn new() -> (set: JoinSet<H>)
        ensures
            set.spec_tasks() == Map::<u64, H>::empty(),
            set.spec_tasks().len() == 0,
            set.spec_next_tag() == 0,
    {
        JoinSet { tasks: HashMap::new(), next_tag: 0 }
    }

    /// Returns the number of tasks currently in the `JoinSet`.
    pub fn len(&self) -> (len: usize)
        ensures
            len == self.spec_tasks().len(),
            self.spec_tasks().dom().finite(),
    {
        self.tasks.len()
    }

    /// Returns whether the `JoinSet` is empty.
    pub fn is_empty(&self) -> (empty: bool)
        ensures
            empty == (self.spec_tasks().len() == 0),
    {
        proof {
            if self.tasks@.len() == 0 {
                assert(self.tasks@.dom() =~= Set::empty());
            }
        }
        self.tasks.is_empty()
    }

    /// Removes all tasks from this `JoinSet` without aborting them.
    ///
    /// The tasks removed by this call will continue to run in the
    /// background even if the `JoinSet` is dropped. Their tags may still
    /// come out of the completion queue; they are passed over.
    pub fn detach_all(&mut self)
        ensures
            final(self).spec_tasks() == Map::<u64, H>::empty(),
            final(self).spec_tasks().len() == 0,
            final(self).spec_next_tag() == old(self).spec_next_tag(),
    {
        self.tasks = HashMap::new();
    }

    /// Returns the tag that the next stored task gets, so that the task's
    /// completion can be hooked to queue it before the task is stored.
    pub fn next_tag(&self) -> (tag: u64)
        ensures
            tag == self.spec_next_tag(),
    {
        self.next_tag
    }

    /// Stores a spawned task's handle under a fresh tag, which it returns.
    /// The caller hooks the task's completion to queue that tag.
    pub fn store(&mut self, handle: H) -> (tag: u64)
        requires
            old(self).spec_next_tag() < u64::MAX,
        ensures
            tag == old(self).spec_next_tag(),
            !old(self).spec_tasks().contains_key(tag),
            final(self).spec_tasks() == old(self).spec_tasks().insert(tag, handle),
            final(self).spec_tasks().dom().finite(),
            final(self).spec_tasks().len() == old(self).spec_tasks().len() + 1,
            final(self).spec_next_tag() == old(self).spec_next_tag() + 1,
    {
        proof {
            use_type_invariant(&*self);
        }
        let tag = self.next_tag;
        self.next_tag = tag + 1;
        let mut tasks = HashMap::new();
        std::mem::swap(&mut tasks, &mut self.tasks);
        tasks.insert(tag, handle);
        self.tasks = tasks;
        tag
    }

    /// Removes the task stored under `tag`, if one is.
    pub fn take(&mut self, tag: u64) -> (taken: Option<H>)
        ensures
            old(self).spec_tasks().contains_key(tag) ==> taken == Some(old(self).spec_tasks()[tag]),
            !old(self).spec_tasks().contains_key(tag) ==> taken is None,
            final(self).spec_tasks() == old(self).spec_tasks().remove(tag),
            final(self).spec_tasks().dom().finite(),
            old(self).spec_tasks().contains_key(tag) ==> final(self).spec_tasks().len()
                == old(self).spec_tasks().len() - 1,
            final(self).spec_next_tag() == old(self).spec_next_tag(),
    {
        proof {
            use_type_invariant(&*self);
        }
        let mut tasks = HashMap::new();
        std::mem::swap(&mut tasks, &mut self.tasks);
        let taken = tasks.remove(&tag);
        proof {
            if !old(self).tasks@.contains_key(tag) {
                assert(tasks@ =~= old(self).tasks@.remove(tag));
            }
        }
        self.tasks = tasks;
        taken
    }

    /// Tries to join one of the tasks in the set that has completed: takes
    /// the earliest completed tag that a stored task answers to, passing
    /// over stale ones, and hands that task's handle out of the set.
    ///
    /// Returns `None` if there are no completed tasks, or if the set is
    /// empty; the queue is then drained of stale tags.
    pub fn try_join_next(&mut self, queue: &mut CompletionQueue<u64>) -> (joined: Option<H>)
        ensures
            ({
                let rest = spec_skip_stale(old(queue).spec_ready(), old(self).spec_tasks().dom());
                &&& rest.len() == 0 ==> {
                    &&& joined is None
                    &&& final(self).spec_tasks() == old(self).spec_tasks()
                    &&& final(queue).spec_ready().len() == 0
                }
                &&& rest.len() > 0 ==> {
                    &&& joined == Some(old(self).spec_tasks()[rest[0]])
                    &&& final(self).spec_tasks() == old(self).spec_tasks().remove(rest[0])
                    &&& final(queue).spec_ready() == rest.drop_first()
                }
            }),
            old(self).spec_tasks().len() == 0 ==> joined is None,
            final(queue).spec_consumer() == old(queue).spec_consumer(),
            final(self).spec_next_tag() == old(self).spec_next_tag(),
    {
        proof {
            lemma_no_task_means_nothing_comes_out(self.tasks@, queue.spec_ready());
        }
        loop
            invariant
                spec_skip_stale(queue.spec_ready(), self.spec_tasks().dom()) == spec_skip_stale(
                    old(queue).spec_ready(),
                    old(self).spec_tasks().dom(),
                ),
                self.spec_tasks() == old(self).spec_tasks(),
                self.spec_next_tag() == old(self).spec_next_tag(),
                queue.spec_consumer() == old(queue).spec_consumer(),
            decreases queue.spec_ready().len(),
        {
            let ghost before = queue.spec_ready();
            match queue.pop() {
                None => {
                    return None;
                },
                Some(tag) => {
                    if let Some(handle) = self.take(tag) {
                        return Some(handle);
                    }
                    proof {
                        assert(self.tasks@ =~= old(self).tasks@);
                    }
                },
            }
        }
    }

    /// Polls for one of the tasks in the set to complete.
    ///
    /// Like [`JoinSet::try_join_next`], but when no completed task is left
    /// `waker`, the consumer's waker of this call, is registered in the
    /// queue, so that it receives a wakeup when a task completes; only the
    /// waker of the most recent call is kept. The answer then tells an empty
    /// set apart from one whose tasks are still running.
    pub fn poll_join_next(&mut self, queue: &mut CompletionQueue<u64>, waker: Waker) -> (polled:
        JoinPoll<H>)
        ensures
            ({
                let rest = spec_skip_stale(old(queue).spec_ready(), old(self).spec_tasks().dom());
                &&& rest.len() == 0 ==> {
                    &&& final(self).spec_tasks() == old(self).spec_tasks()
                    &&& final(queue).spec_ready().len() == 0
                    &&& final(queue).spec_consumer() == Some(waker)
                    &&& old(self).spec_tasks().len() == 0 ==> polled is Empty
                    &&& old(self).spec_tasks().len() > 0 ==> polled is Pending
                }
                &&& rest.len() > 0 ==> {
                    &&& polled == JoinPoll::Ready(old(self).spec_tasks()[rest[0]])
                    &&& final(self).spec_tasks() == old(self).spec_tasks().remove(rest[0])
                    &&& final(queue).spec_ready() == rest.drop_first()
                    &&& final(queue).spec_consumer() == old(queue).spec_consumer()
                }
            }),
            old(self).spec_tasks().len() == 0 ==> polled is Empty,
            final(self).spec_next_tag() == old(self).spec_next_tag(),
    {
        proof {
            lemma_no_task_means_nothing_comes_out(self.tasks@, queue.spec_ready());
        }
        loop
            invariant
                spec_skip_stale(queue.spec_ready(), self.spec_tasks().dom()) == spec_skip_stale(
                    old(queue).spec_ready(),
                    old(self).spec_tasks().dom(),
                ),
                self.spec_tasks() == old(self).spec_tasks(),
                self.spec_next_tag() == old(self).spec_next_tag(),
                queue.spec_consumer() == old(queue).spec_consumer(),
            decreases queue.spec_ready().len(),
        {
            match queue.pop() {
                None => {
                    queue.register(waker);
                    if self.is_empty() {
                        return JoinPoll::Empty;
                    }
                    return JoinPoll::Pending;
                },
                Some(tag) => {
                    if let Some(handle) = self.take(tag) {
                        return JoinPoll::Ready(handle);
                    }
                    proof {
                        assert(self.tasks@ =~= old(self).tasks@);
                    }
                },
            }
        }
    }
}

impl<H: AbortTask> JoinSet<H> {
    /// Aborts all tasks on this `JoinSet`.
    ///
    /// This does not remove the tasks from the `JoinSet`. To wait for the
    /// tasks to complete cancellation, join them until the set is empty.
    ///
    /// Hands back the tags of the tasks it aborted, in the order it
    /// reached them: each stored task exactly once, and no other.
    pub fn abort_all(&self) -> (aborted: Ghost<Seq<u64>>)
        ensures
            aborted@.to_set() == self.spec_tasks().dom(),
            aborted@.no_duplicates(),
            aborted@.len() == self.spec_tasks().len(),
    {
        let ghost mut log: Seq<u64> = Seq::empty();
        for tag in it: self.tasks.keys()
            invariant
                it.seq() == spec_keys_iter(&self.tasks).remaining(),
                log == it.seq().take(it.index()).map_values(|k: &u64| *k),
        {
            match self.tasks.get(tag) {
                Some(handle) => handle.abort(),
                None => {},
            }
            proof {
                log = log.push(*tag);
            }
        }
        proof {
            let keys = spec_keys_iter(&self.tasks).remaining();
            assert(log =~= keys.unref());
            assert forall|i: int, j: int| 0 <= i < j < log.len() implies log[i] != log[j] by {
                assert(keys[i] != keys[j]);
            }
        }
        Ghost(log)
    }
}

/// Tags that outlived their tasks never come out: once every task was
/// detached, nothing that is queued or ever gets queued is joined.
pub proof fn lemma_detached_tasks_never_come_out(queue: Seq<u64>)
    ensures
        spec_skip_stale(queue, Set::<u64>::empty()).len() == 0,
    decreases queue.len(),
{
    if queue.len() > 0 {
        lemma_detached_tasks_never_come_out(queue.drop_first());
    }
}

/// A set that holds no task hands nothing out, whatever tags are queued.
proof fn lemma_no_task_means_nothing_comes_out<H>(tasks: Map<u64, H>, queue: Seq<u64>)
    requires
        tasks.dom().finite(),
    ensures
        tasks.len() == 0 ==> spec_skip_stale(queue, tasks.dom()).len() == 0,
{
    if tasks.len() == 0 {
        assert(tasks.dom() =~= Set::<u64>::empty());
        lemma_detached_tasks_never_come_out(queue);
    }
}

/// What a join gives back of a store: a task stored under a fresh tag,
/// once its completion is queued, is the one that the next join hands out,
/// and the set is left as it was before the store.
pub proof fn lemma_a_stored_task_comes_back<H>(tasks: Map<u64, H>, tag: u64, handle: H)
    requires
        !tasks.contains_key(tag),
    ensures
        ({
            let stored = tasks.insert(tag, handle);
            let rest = spec_skip_stale(seq![tag], stored.dom());
            &&& rest == seq![tag]
            &&& stored[rest[0]] == handle
            &&& stored.remove(rest[0]) == tasks
            &&& rest.drop_first().len() == 0
        }),
{
    let stored = tasks.insert(tag, handle);
    assert(stored.dom().contains(tag));
    assert(stored.remove(tag) =~= tasks);
}

/// A tag that a stored task answers to is never passed over: when the
/// earliest completed tag is live, it is the one that comes out.
pub proof fn lemma_live_tags_come_out_first(queue: Seq<u64>, live: Set<u64>)
    requires
        queue.len() > 0,
        live.contains(queue[0]),
    ensures
        spec_skip_stale(queue, live) == queue,
{
}

/// What comes out is always a completed tag that a stored task answers
/// to, and the tags passed over on the way are all stale.
pub proof fn lemma_only_live_tags_come_out(queue: Seq<u64>, live: Set<u64>)
    ensures
        ({
            let rest = spec_skip_stale(queue, live);
            &&& rest.len() <= queue.len()
            &&& rest == queue.skip(queue.len() - rest.len())
            &&& rest.len() > 0 ==> live.contains(rest[0])
            &&& forall|i: int|
                0 <= i < queue.len() - rest.len() ==> !live.contains(#[trigger] queue[i])
        }),
    decreases queue.len(),
{
    if queue.len() > 0 && !live.contains(queue[0]) {
        lemma_only_live_tags_come_out(queue.drop_first(), live);
        let rest = spec_skip_stale(queue, live);
        assert(rest == queue.skip(queue.len() - rest.len()));
        assert forall|i: int| 0 <= i < queue.len() - rest.len() implies !live.contains(
            #[trigger] queue[i],
        ) by {
            if i > 0 {
                assert(queue[i] == queue.drop_first()[i - 1]);
            }
        }
    } else {
        assert(queue =~= queue.skip(0));
    }
}

} // verus!
