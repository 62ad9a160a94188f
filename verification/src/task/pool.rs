//! The bookkeeping of the pool of web workers that run blocking tasks.
//!
//! Workers are created on demand as tasks arrive, up to a limit, reused
//! while they sit idle, and terminated once they have been idle for a
//! while. Creating, messaging and terminating the workers is done by the
//! caller; this decides which of those happens.

use vstd::prelude::*;
use std::collections::VecDeque;

verus! {

/// The most web workers that the pool holds at once, idle or busy.
pub const MAX_WORKERS: usize = 512;

/// How long a web worker may sit idle before it is terminated.
pub const IDLE_TIMEOUT_MILLIS: u64 = 10000;

/// A web worker waiting in the pool for its next task.
pub struct IdleWorker<W> {
    /// The worker itself.
    pub worker: W,
    /// What tells this worker apart from the others.
    pub key: u64,
    /// When the worker became idle, in milliseconds.
    pub since_millis: u64,
}

/// Where a task that leaves the queue runs.
pub enum Assignment<W> {
    /// On this idle worker.
    Reuse(W),
    /// On a worker that the caller creates now. Its slot is already taken;
    /// if creating it fails, the caller gives the slot back.
    Create,
}

/// What became of a worker that reported back.
pub enum Reclaimed<W> {
    /// It finished its task and waits in the pool for the next one.
    Idle,
    /// It finished, but was already waiting in the pool: it reported twice
    /// for one task, and is not registered again.
    Duplicate(W),
    /// It failed: its slot is given back, and the caller terminates it and
    /// reports the failure of the task it ran.
    Failed(W),
}

/// Whether a worker idle since `since` is still kept at `now`: it has been
/// idle for less than the timeout. A clock that went backwards counts as
/// no time passed.
pub open spec fn spec_is_active(since: u64, now: u64) -> bool {
    now < since + IDLE_TIMEOUT_MILLIS
}

/// The idle workers of `idle` that are kept at `now`, in their order.
pub open spec fn spec_kept<W>(idle: Seq<IdleWorker<W>>, now: u64) -> Seq<IdleWorker<W>>
    decreases idle.len(),
{
    if idle.len() == 0 {
        Seq::empty()
    } else if spec_is_active(idle[0].since_millis, now) {
        seq![idle[0]] + spec_kept(idle.drop_first(), now)
    } else {
        spec_kept(idle.drop_first(), now)
    }
}

/// The idle workers of `idle` that have timed out at `now`, in their order.
pub open spec fn spec_expired<W>(idle: Seq<IdleWorker<W>>, now: u64) -> Seq<W>
    decreases idle.len(),
{
    if idle.len() == 0 {
        Seq::empty()
    } else if spec_is_active(idle[0].since_millis, now) {
        spec_expired(idle.drop_first(), now)
    } else {
        seq![idle[0].worker] + spec_expired(idle.drop_first(), now)
    }
}

/// `count` less `n`, but not below zero.
pub open spec fn spec_less(count: usize, n: nat) -> usize {
    if count >= n {
        (count - n) as usize
    } else {
        0
    }
}

/// Whether some worker of `idle` has `key`.
pub open spec fn spec_has_key<W>(idle: Seq<IdleWorker<W>>, key: u64) -> bool {
    exists|i: int| 0 <= i < idle.len() && #[trigger] idle[i].key == key
}

/// Whether no two workers of `idle` have the same key.
pub open spec fn spec_keys_distinct<W>(idle: Seq<IdleWorker<W>>) -> bool {
    forall|i: int, j: int| 0 <= i < j < idle.len() ==> #[trigger] idle[i].key != #[trigger] idle[j].key
}

/// Every worker that [`spec_kept`] keeps comes from the list it kept it from.
proof fn lemma_kept_come_from_the_list<W>(idle: Seq<IdleWorker<W>>, now: u64)
    ensures
        forall|k: int|
            0 <= k < spec_kept(idle, now).len() ==> exists|i: int|
                0 <= i < idle.len() && #[trigger] spec_kept(idle, now)[k] == idle[i],
    decreases idle.len(),
{
    if idle.len() > 0 {
        let rest = idle.drop_first();
        lemma_kept_come_from_the_list(rest, now);
        let kept = spec_kept(idle, now);
        assert forall|k: int| 0 <= k < kept.len() implies exists|i: int|
            0 <= i < idle.len() && #[trigger] kept[k] == idle[i] by {
            if spec_is_active(idle[0].since_millis, now) {
                if k == 0 {
                    assert(kept[0] == idle[0]);
                } else {
                    let i = choose|i: int| 0 <= i < rest.len() && spec_kept(rest, now)[k - 1] == rest[i];
                    assert(kept[k] == idle[i + 1]);
                }
            } else {
                let i = choose|i: int| 0 <= i < rest.len() && spec_kept(rest, now)[k] == rest[i];
                assert(kept[k] == idle[i + 1]);
            }
        }
    }
}

/// A worker is never waiting in the pool twice: a worker is only put back
/// when no waiting worker has its key, and terminating the idle ones keeps
/// the keys of those that stay apart, so keys that start apart stay apart.
pub proof fn lemma_no_worker_waits_twice<W>(idle: Seq<IdleWorker<W>>, back: IdleWorker<W>, now: u64)
    requires
        spec_keys_distinct(idle),
    ensures
        !spec_has_key(idle, back.key) ==> spec_keys_distinct(idle.push(back)),
        spec_keys_distinct(spec_kept(idle, now)),
        idle.len() > 0 ==> spec_keys_distinct(idle.drop_last()),
    decreases idle.len(),
{
    if !spec_has_key(idle, back.key) {
        let pushed = idle.push(back);
        assert forall|i: int, j: int| 0 <= i < j < pushed.len() implies #[trigger] pushed[i].key
            != #[trigger] pushed[j].key by {
            if j == idle.len() {
                assert(pushed[i] == idle[i]);
                if pushed[i].key == back.key {
                    assert(idle[i].key == back.key);
                }
            } else {
                assert(pushed[i] == idle[i] && pushed[j] == idle[j]);
            }
        }
    }
    if idle.len() > 0 {
        let rest = idle.drop_first();
        assert(spec_keys_distinct(rest)) by {
            assert forall|i: int, j: int| 0 <= i < j < rest.len() implies #[trigger] rest[i].key
                != #[trigger] rest[j].key by {
                assert(rest[i] == idle[i + 1] && rest[j] == idle[j + 1]);
            }
        }
        lemma_no_worker_waits_twice(rest, back, now);
        lemma_kept_come_from_the_list(rest, now);
        let kept = spec_kept(idle, now);
        let kept_rest = spec_kept(rest, now);
        if spec_is_active(idle[0].since_millis, now) {
            assert forall|i: int, j: int| 0 <= i < j < kept.len() implies #[trigger] kept[i].key
                != #[trigger] kept[j].key by {
                if i == 0 {
                    let m = choose|m: int| 0 <= m < rest.len() && kept_rest[j - 1] == rest[m];
                    assert(kept[j] == idle[m + 1]);
                    assert(kept[0] == idle[0]);
                } else {
                    assert(kept[i] == kept_rest[i - 1] && kept[j] == kept_rest[j - 1]);
                }
            }
        } else {
            assert(kept == kept_rest);
        }
        let dropped = idle.drop_last();
        assert forall|i: int, j: int| 0 <= i < j < dropped.len() implies #[trigger] dropped[i].key
            != #[trigger] dropped[j].key by {
            assert(dropped[i] == idle[i] && dropped[j] == idle[j]);
        }
    }
}

/// The pool's state: how many workers count against the limit, whether
/// idle or busy; the idle ones, the most recently idled last; the tasks
/// waiting for a worker, the oldest first; and whether the periodic
/// management task is running.
pub struct WorkerPool<W, T> {
    total: usize,
    idle: VecDeque<IdleWorker<W>>,
    queued: VecDeque<T>,
    managed: bool,
}

impl<W, T> WorkerPool<W, T> {
    /// How many workers count against [`MAX_WORKERS`].
    pub closed spec fn spec_total(&self) -> usize {
        self.total
    }

    /// The idle workers, the most recently idled last.
    pub closed spec fn spec_idle(&self) -> Seq<IdleWorker<W>> {
        self.idle@
    }

    /// The tasks waiting for a worker, the oldest first.
    pub closed spec fn spec_queued(&self) -> Seq<T> {
        self.queued@
    }

    /// Whether the periodic management task is running.
    pub closed spec fn spec_managed(&self) -> bool {
        self.managed
    }

    /// Whether a queued task can run now: a worker is sitting idle, or
    /// there is room to create a new one.
    pub open spec fn spec_has_capacity(&self) -> bool {
        self.spec_idle().len() > 0 || self.spec_total() < MAX_WORKERS
    }

    #[verifier::type_invariant]
    spec fn within_limit(&self) -> bool {
        self.total <= MAX_WORKERS
    }

    /// An empty pool. Workers are created on demand as tasks arrive.
    pub fn new() -> (pool: WorkerPool<W, T>)
        ensures
            pool.spec_total() == 0,
            pool.spec_idle().len() == 0,
            pool.spec_queued().len() == 0,
            !pool.spec_managed(),
    {
        WorkerPool { total: 0, idle: VecDeque::new(), queued: VecDeque::new(), managed: false }
    }

    /// Returns how many workers count against [`MAX_WORKERS`], which they
    /// never exceed.
    pub fn total(&self) -> (total: usize)
        ensures
            total == self.spec_total(),
            total <= MAX_WORKERS,
    {
        proof {
            use_type_invariant(self);
        }
        self.total
    }

    /// Puts a task at the end of the queue of tasks waiting for a worker.
    pub fn queue_task(&mut self, task: T)
        ensures
            final(self).spec_queued() == old(self).spec_queued().push(task),
            final(self).spec_total() == old(self).spec_total(),
            final(self).spec_idle() == old(self).spec_idle(),
            final(self).spec_managed() == old(self).spec_managed(),
    {
        proof {
            use_type_invariant(&*self);
        }
        let mut queued = VecDeque::new();
        std::mem::swap(&mut queued, &mut self.queued);
        queued.push_back(task);
        self.queued = queued;
    }

    /// Returns whether a queued task can run now: a worker is sitting
    /// idle, or there is room to create a new one. Checking only the total
    /// would strand queued tasks while the pool is at its limit, because
    /// idle workers still count against it.
    pub fn has_capacity(&self) -> (capacity: bool)
        ensures
            capacity == self.spec_has_capacity(),
    {
        self.idle.len() > 0 || self.total < MAX_WORKERS
    }

    /// Takes the oldest queued task off the queue, if one can run now, and
    /// says where it runs: on the most recently idled worker if one is
    /// waiting, even at the limit, or else on a new worker, whose slot it
    /// takes right away.
    pub fn next_run(&mut self) -> (run: Option<(T, Assignment<W>)>)
        ensures
            !old(self).spec_has_capacity() || old(self).spec_queued().len() == 0 ==> {
                &&& run is None
                &&& final(self).spec_queued() == old(self).spec_queued()
                &&& final(self).spec_idle() == old(self).spec_idle()
                &&& final(self).spec_total() == old(self).spec_total()
            },
            old(self).spec_has_capacity() && old(self).spec_queued().len() > 0 ==> {
                &&& run is Some
                &&& run.unwrap().0 == old(self).spec_queued()[0]
                &&& final(self).spec_queued() == old(self).spec_queued().drop_first()
                &&& old(self).spec_idle().len() > 0 ==> {
                    &&& run.unwrap().1 == Assignment::Reuse(old(self).spec_idle().last().worker)
                    &&& final(self).spec_idle() == old(self).spec_idle().drop_last()
                    &&& final(self).spec_total() == old(self).spec_total()
                }
                &&& old(self).spec_idle().len() == 0 ==> {
                    &&& run.unwrap().1 is Create
                    &&& final(self).spec_idle() == old(self).spec_idle()
                    &&& final(self).spec_total() == old(self).spec_total() + 1
                }
            },
            final(self).spec_total() <= MAX_WORKERS,
            final(self).spec_managed() == old(self).spec_managed(),
    {
        proof {
            use_type_invariant(&*self);
        }
        if !self.has_capacity() || self.queued.len() == 0 {
            return None;
        }
        let mut queued = VecDeque::new();
        std::mem::swap(&mut queued, &mut self.queued);
        let popped = queued.pop_front();
        self.queued = queued;
        let task = match popped {
            Some(task) => task,
            None => {
                return None;
            },
        };
        let mut idle = VecDeque::new();
        std::mem::swap(&mut idle, &mut self.idle);
        let reused = idle.pop_back();
        self.idle = idle;
        match reused {
            Some(waiting) => Some((task, Assignment::Reuse(waiting.worker))),
            None => {
                self.total = self.total + 1;
                Some((task, Assignment::Create))
            },
        }
    }

    /// Gives up a worker slot, letting a queued task take it: the worker
    /// could not be created, could not be handed its task, died, or was
    /// terminated for being idle too long.
    pub fn discard_worker(&mut self)
        ensures
            final(self).spec_total() == spec_less(old(self).spec_total(), 1),
            final(self).spec_idle() == old(self).spec_idle(),
            final(self).spec_queued() == old(self).spec_queued(),
            final(self).spec_managed() == old(self).spec_managed(),
    {
        proof {
            use_type_invariant(&*self);
        }
        self.total = self.total.saturating_sub(1);
    }

    /// Returns whether a worker with `key` is waiting in the pool.
    fn is_known(&self, key: u64) -> (known: bool)
        ensures
            known == spec_has_key(self.spec_idle(), key),
    {
        let mut i: usize = 0;
        while i < self.idle.len()
            invariant
                0 <= i <= self.idle@.len(),
                forall|j: int| 0 <= j < i ==> #[trigger] self.idle@[j].key != key,
            decreases self.idle@.len() - i,
        {
            if self.idle[i].key == key {
                return true;
            }
            i = i + 1;
        }
        false
    }

    /// Adds a worker to the end of the idle ones.
    fn park(&mut self, idle: IdleWorker<W>)
        ensures
            final(self).spec_idle() == old(self).spec_idle().push(idle),
            final(self).spec_total() == old(self).spec_total(),
            final(self).spec_queued() == old(self).spec_queued(),
            final(self).spec_managed() == old(self).spec_managed(),
    {
        proof {
            use_type_invariant(&*self);
        }
        let mut waiting = VecDeque::new();
        std::mem::swap(&mut waiting, &mut self.idle);
        waiting.push_back(idle);
        self.idle = waiting;
    }

    /// Puts a worker that finished its task back in the pool, idle since
    /// `now_millis`, unless a worker with the same `key` is already there:
    /// a worker that reported twice for one task would otherwise be handed
    /// two tasks at once. Returns whether it was put back.
    pub fn push_worker(&mut self, worker: W, key: u64, now_millis: u64) -> (pushed: bool)
        ensures
            pushed == !spec_has_key(old(self).spec_idle(), key),
            pushed ==> final(self).spec_idle() == old(self).spec_idle().push(
                IdleWorker { worker, key, since_millis: now_millis },
            ),
            !pushed ==> final(self).spec_idle() == old(self).spec_idle(),
            final(self).spec_total() == old(self).spec_total(),
            final(self).spec_queued() == old(self).spec_queued(),
            final(self).spec_managed() == old(self).spec_managed(),
    {
        if self.is_known(key) {
            return false;
        }
        self.park(IdleWorker { worker, key, since_millis: now_millis });
        true
    }

    /// Settles a worker that reported back after running a task: one that
    /// completed goes back to the pool; one that failed, which is what a
    /// panic inside its task looks like, gives up its slot, and is handed
    /// back to be terminated, its memory being in an unknown state.
    pub fn reclaim(&mut self, worker: W, key: u64, completed: bool, now_millis: u64) -> (reclaimed:
        Reclaimed<W>)
        ensures
            completed && !spec_has_key(old(self).spec_idle(), key) ==> {
                &&& reclaimed is Idle
                &&& final(self).spec_idle() == old(self).spec_idle().push(
                    IdleWorker { worker, key, since_millis: now_millis },
                )
                &&& final(self).spec_total() == old(self).spec_total()
            },
            completed && spec_has_key(old(self).spec_idle(), key) ==> {
                &&& reclaimed == Reclaimed::Duplicate(worker)
                &&& final(self).spec_idle() == old(self).spec_idle()
                &&& final(self).spec_total() == old(self).spec_total()
            },
            !completed ==> {
                &&& reclaimed == Reclaimed::Failed(worker)
                &&& final(self).spec_idle() == old(self).spec_idle()
                &&& final(self).spec_total() == spec_less(old(self).spec_total(), 1)
            },
            final(self).spec_queued() == old(self).spec_queued(),
            final(self).spec_managed() == old(self).spec_managed(),
    {
        if !completed {
            self.discard_worker();
            return Reclaimed::Failed(worker);
        }
        if self.is_known(key) {
            return Reclaimed::Duplicate(worker);
        }
        self.park(IdleWorker { worker, key, since_millis: now_millis });
        Reclaimed::Idle
    }

    /// Removes the workers that have been idle for [`IDLE_TIMEOUT_MILLIS`]
    /// or longer at `now_millis`, giving up their slots, and hands them back
    /// to be terminated.
    pub fn remove_inactive_workers(&mut self, now_millis: u64) -> (expired: Vec<W>)
        ensures
            expired@ == spec_expired(old(self).spec_idle(), now_millis),
            final(self).spec_idle() == spec_kept(old(self).spec_idle(), now_millis),
            final(self).spec_total() == spec_less(old(self).spec_total(), expired@.len()),
            final(self).spec_queued() == old(self).spec_queued(),
            final(self).spec_managed() == old(self).spec_managed(),
    {
        proof {
            use_type_invariant(&*self);
        }
        let mut rest = VecDeque::new();
        std::mem::swap(&mut rest, &mut self.idle);
        let ghost all = rest@;
        let mut kept: VecDeque<IdleWorker<W>> = VecDeque::new();
        let mut expired: Vec<W> = Vec::new();
        let ghost total = self.total;
        while rest.len() > 0
            invariant
                kept@ + spec_kept(rest@, now_millis) == spec_kept(all, now_millis),
                expired@ + spec_expired(rest@, now_millis) == spec_expired(all, now_millis),
                self.total == spec_less(total, expired@.len()),
                total <= MAX_WORKERS,
                self.idle@.len() == 0,
                self.queued@ == old(self).queued@,
                self.managed == old(self).managed,
            decreases rest@.len(),
        {
            let ghost before = rest@;
            let idle = rest.pop_front().unwrap();
            proof {
                assert(rest@ == before.drop_first());
            }
            let active = now_millis < idle.since_millis || now_millis - idle.since_millis
                < IDLE_TIMEOUT_MILLIS;
            if active {
                proof {
                    assert(seq![idle] + spec_kept(rest@, now_millis) == spec_kept(
                        before,
                        now_millis,
                    ));
                    assert(kept@.push(idle) + spec_kept(rest@, now_millis) =~= kept@ + (seq![idle]
                        + spec_kept(rest@, now_millis)));
                    assert(spec_expired(rest@, now_millis) == spec_expired(before, now_millis));
                }
                kept.push_back(idle);
            } else {
                proof {
                    assert(seq![idle.worker] + spec_expired(rest@, now_millis) == spec_expired(
                        before,
                        now_millis,
                    ));
                    assert(expired@.push(idle.worker) + spec_expired(rest@, now_millis) =~= expired@
                        + (seq![idle.worker] + spec_expired(rest@, now_millis)));
                    assert(spec_kept(rest@, now_millis) == spec_kept(before, now_millis));
                }
                expired.push(idle.worker);
                self.total = self.total.saturating_sub(1);
            }
        }
        proof {
            assert(kept@ =~= kept@ + spec_kept(rest@, now_millis));
            assert(expired@ =~= expired@ + spec_expired(rest@, now_millis));
        }
        self.idle = kept;
        expired
    }

    /// Reports whether the periodic management task still has something
    /// to do: workers to watch or tasks to hand out. When it has not, the
    /// pool records that it stopped, so that the next task starts it again.
    pub fn keep_managing(&mut self) -> (needed: bool)
        ensures
            needed == (old(self).spec_total() > 0 || old(self).spec_queued().len() > 0),
            !needed ==> !final(self).spec_managed(),
            needed ==> final(self).spec_managed() == old(self).spec_managed(),
            final(self).spec_total() == old(self).spec_total(),
            final(self).spec_idle() == old(self).spec_idle(),
            final(self).spec_queued() == old(self).spec_queued(),
    {
        proof {
            use_type_invariant(&*self);
        }
        let needed = self.total > 0 || self.queued.len() > 0;
        if !needed {
            self.managed = false;
        }
        needed
    }

    /// Returns whether the periodic management task has to be started,
    /// recording that it runs from now on.
    pub fn needs_managing(&mut self) -> (start: bool)
        ensures
            start == !old(self).spec_managed(),
            final(self).spec_managed(),
            final(self).spec_total() == old(self).spec_total(),
            final(self).spec_idle() == old(self).spec_idle(),
            final(self).spec_queued() == old(self).spec_queued(),
    {
        proof {
            use_type_invariant(&*self);
        }
        let start = !self.managed;
        self.managed = true;
        start
    }
}

} // verus!
