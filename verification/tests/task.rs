use std::cell::Cell;
use std::sync::Arc;
use std::sync::atomic::{AtomicUsize, Ordering};
use std::task::{Wake, Waker};
use tokio_with_wasm::common::CompletionQueue;
use tokio_with_wasm::task::coop::BUDGET;
use tokio_with_wasm::task::pool::IDLE_TIMEOUT_MILLIS;
use tokio_with_wasm::task::{
    AbortTask, Assignment, Builder, CoopBudget, IdCounter, JoinError, JoinPoll, JoinSet,
    MAX_WORKERS, Reclaimed, TaskFlags, TaskScope, WorkerPool, id, settle, start_blocking, try_id,
    unconstrained,
};

struct Counter {
    wakes: AtomicUsize,
}

impl Wake for Counter {
    fn wake(self: Arc<Self>) {
        self.wakes.fetch_add(1, Ordering::SeqCst);
    }
}

fn counting_waker() -> (Arc<Counter>, Waker) {
    let counter = Arc::new(Counter { wakes: AtomicUsize::new(0) });
    let waker = Waker::from(counter.clone());
    (counter, waker)
}

#[test]
fn ids_are_distinct() {
    let mut counter = IdCounter::new();
    let first = counter.next();
    let second = counter.next();
    assert_ne!(first, second);
    assert_eq!(first.as_u64(), 1);
    assert_eq!(second.as_u64(), 2);
}

#[test]
fn display_prints_a_bare_number() {
    let mut counter = IdCounter::new();
    for _ in 0..1233 {
        counter.next();
    }
    let id = counter.next();
    let text = id.to_string();
    assert_eq!(text, "1234");
    assert!(text.chars().all(|ch| ch.is_ascii_digit()));
}

#[test]
fn try_id_is_none_outside_of_tasks() {
    let scope = TaskScope::new();
    assert_eq!(try_id(&scope), None);
}

#[test]
fn scope_restores_the_previous_id() {
    let mut counter = IdCounter::new();
    let outer = counter.next();
    let inner = counter.next();
    let mut scope = TaskScope::new();
    let before = scope.enter(outer);
    assert_eq!(id(&scope), outer);
    let nested = scope.enter(inner);
    assert_eq!(try_id(&scope), Some(inner));
    scope.leave(nested);
    assert_eq!(try_id(&scope), Some(outer));
    scope.leave(before);
    assert_eq!(try_id(&scope), None);
}

#[test]
fn join_errors_say_what_happened() {
    let mut counter = IdCounter::new();
    let task = counter.next();
    let cancelled = JoinError::cancelled(task);
    assert!(cancelled.is_cancelled() && !cancelled.is_panic());
    assert_eq!(cancelled.id(), task);
    assert_eq!(cancelled.description(), "task was cancelled");
    let panicked = JoinError::panicked(task);
    assert!(panicked.is_panic() && !panicked.is_cancelled());
    assert_eq!(panicked.description(), "task panicked");
}

#[test]
fn a_finished_task_beats_a_late_abort() {
    let mut counter = IdCounter::new();
    let task = counter.next();
    assert_eq!(settle(task, Some(42), true).unwrap().unwrap(), 42);
    assert_eq!(settle(task, Some(42), false).unwrap().unwrap(), 42);
    let aborted = settle::<i32>(task, None, true).unwrap().unwrap_err();
    assert!(aborted.is_cancelled());
    assert_eq!(aborted.id(), task);
    assert!(settle::<i32>(task, None, false).is_none());
}

#[test]
fn blocking_tasks_aborted_before_they_start_never_run() {
    let mut counter = IdCounter::new();
    let task = counter.next();
    let refused = start_blocking(task, true).unwrap();
    assert!(refused.is_cancelled());
    assert_eq!(refused.id(), task);
    assert!(start_blocking(task, false).is_none());
}

#[test]
fn a_cancellation_wakes_the_registered_task() {
    let mut flags = TaskFlags::new();
    let (counter, waker) = counting_waker();
    assert!(!flags.cancelled_or_register(&waker));
    assert!(!flags.is_cancelled());
    // Registering the same task again keeps one waker.
    assert!(!flags.cancelled_or_register(&waker));
    if let Some(task) = flags.cancel() {
        task.wake();
    }
    assert_eq!(counter.wakes.load(Ordering::SeqCst), 1);
    assert!(flags.is_cancelled());
    // Once cancelled, nothing is registered anymore.
    assert!(flags.cancelled_or_register(&waker));
    assert!(flags.cancel().is_none());
}

#[test]
fn finishing_flips_only_the_finished_flag() {
    let mut flags = TaskFlags::new();
    assert!(!flags.is_finished());
    assert!(flags.finish().is_none());
    assert!(flags.is_finished());
    assert!(!flags.is_cancelled());
}

#[test]
fn finishing_releases_the_registered_waker() {
    let mut flags = TaskFlags::new();
    let (counter, waker) = counting_waker();
    assert!(!flags.cancelled_or_register(&waker));
    assert!(flags.finish().is_some());
    // Aborting a task that already completed must not wake anything.
    assert!(flags.cancel().is_none());
    assert_eq!(counter.wakes.load(Ordering::SeqCst), 0);
}

#[test]
fn the_budget_yields_once_per_round() {
    let mut budget = CoopBudget::new();
    let mut yields = 0;
    for call in 1..=(2 * (BUDGET + 1)) {
        if budget.consume() {
            yields += 1;
            assert_eq!(call % (BUDGET + 1), 0);
        }
    }
    assert_eq!(yields, 2);
}

#[test]
fn unconstrained_skips_the_budget() {
    let mut budget = CoopBudget::new();
    assert!(!budget.consume());
    let previous = budget.enter_unconstrained();
    assert!(!previous);
    for _ in 0..(BUDGET * 2 + 1) {
        assert!(!budget.consume());
    }
    budget.leave_unconstrained(previous);
    // The unconstrained calls did not touch the counter.
    let mut calls_until_yield = 0;
    while !budget.consume() {
        calls_until_yield += 1;
    }
    assert_eq!(calls_until_yield, BUDGET - 1);
}

#[test]
fn unconstrained_passes_the_output_through() {
    let mut wrapped = unconstrained(41);
    *wrapped.get_mut() += 1;
    assert_eq!(wrapped.into_inner(), 42);
}

#[test]
fn builders_keep_the_task_name() {
    let builder = Builder::new();
    assert_eq!(builder.task_name(), None);
    let named = builder.name("my_task");
    assert_eq!(named.task_name(), Some("my_task"));
    assert_eq!(Builder::default().task_name(), None);
}

struct Handle {
    label: char,
    aborted: Cell<bool>,
}

impl AbortTask for Handle {
    fn abort(&self) {
        self.aborted.set(true);
    }
}

fn handle(label: char) -> Handle {
    Handle { label, aborted: Cell::new(false) }
}

#[test]
fn join_set_hands_out_tasks_in_completion_order() {
    let mut set = JoinSet::new();
    let mut queue = CompletionQueue::new();
    let (_, waker) = counting_waker();
    assert!(matches!(set.poll_join_next(&mut queue, waker.clone()), JoinPoll::Empty));
    let a = set.store(handle('a'));
    let b = set.store(handle('b'));
    let c = set.store(handle('c'));
    assert_eq!(set.len(), 3);
    assert!(matches!(set.poll_join_next(&mut queue, waker.clone()), JoinPoll::Pending));
    queue.complete(c);
    queue.complete(a);
    match set.poll_join_next(&mut queue, waker.clone()) {
        JoinPoll::Ready(done) => assert_eq!(done.label, 'c'),
        _ => panic!("the completed task did not come out"),
    }
    assert_eq!(set.try_join_next(&mut queue).map(|done| done.label), Some('a'));
    assert!(set.try_join_next(&mut queue).is_none());
    assert_eq!(set.len(), 1);
    queue.complete(b);
    assert_eq!(set.try_join_next(&mut queue).map(|done| done.label), Some('b'));
    assert!(set.is_empty());
}

#[test]
fn each_store_grows_the_set_by_one() {
    let mut set = JoinSet::new();
    let mut queue = CompletionQueue::new();
    let (_, waker) = counting_waker();
    for i in 0..10 {
        set.store(handle(char::from(b'a' + i)));
        assert_eq!(set.len(), usize::from(i) + 1);
    }
    let mut empty: JoinSet<Handle> = JoinSet::new();
    queue.complete(3);
    assert!(empty.try_join_next(&mut queue).is_none());
    queue.complete(4);
    assert!(matches!(empty.poll_join_next(&mut queue, waker.clone()), JoinPoll::Empty));
}

#[test]
fn a_pending_join_wakes_the_most_recent_poller() {
    let mut set = JoinSet::new();
    let mut queue = CompletionQueue::new();
    let (first, first_waker) = counting_waker();
    let (second, second_waker) = counting_waker();
    let tag = set.store(handle('a'));
    assert!(matches!(set.poll_join_next(&mut queue, first_waker), JoinPoll::Pending));
    assert!(matches!(set.poll_join_next(&mut queue, second_waker), JoinPoll::Pending));
    if let Some(consumer) = queue.complete(tag) {
        consumer.wake();
    }
    assert_eq!(first.wakes.load(Ordering::SeqCst), 0);
    assert_eq!(second.wakes.load(Ordering::SeqCst), 1);
}

#[test]
fn detached_tasks_never_come_out() {
    let mut set = JoinSet::new();
    let mut queue = CompletionQueue::new();
    let (_, waker) = counting_waker();
    let stale = set.store(handle('x'));
    set.detach_all();
    assert!(set.is_empty());
    queue.complete(stale);
    let live = set.store(handle('y'));
    assert_ne!(stale, live);
    queue.complete(live);
    match set.poll_join_next(&mut queue, waker.clone()) {
        JoinPoll::Ready(done) => assert_eq!(done.label, 'y'),
        _ => panic!("the live task did not come out"),
    }
    assert!(matches!(set.poll_join_next(&mut queue, waker.clone()), JoinPoll::Empty));
}

#[test]
fn abort_all_reaches_every_stored_task() {
    let mut set = JoinSet::new();
    let first = set.store(handle('a'));
    set.store(handle('b'));
    set.abort_all();
    assert_eq!(set.len(), 2);
    let taken = set.take(first).unwrap();
    assert!(taken.aborted.get());
    assert!(set.take(first).is_none());
}

#[test]
fn queued_tasks_reuse_idle_workers_at_the_cap() {
    let mut pool: WorkerPool<u32, &str> = WorkerPool::new();
    for _ in 0..MAX_WORKERS {
        pool.queue_task("work");
        assert!(matches!(pool.next_run(), Some(("work", Assignment::Create))));
    }
    assert_eq!(pool.total(), MAX_WORKERS);
    pool.queue_task("late");
    assert!(!pool.has_capacity());
    assert!(pool.next_run().is_none());
    // A worker that finishes is handed the waiting task right away.
    assert!(matches!(pool.reclaim(7, 7, true, 1_000), Reclaimed::Idle));
    assert!(matches!(pool.next_run(), Some(("late", Assignment::Reuse(7)))));
    assert_eq!(pool.total(), MAX_WORKERS);
}

#[test]
fn failed_workers_give_up_their_slots() {
    let mut pool: WorkerPool<u32, u8> = WorkerPool::new();
    pool.queue_task(1);
    assert!(matches!(pool.next_run(), Some((1, Assignment::Create))));
    assert_eq!(pool.total(), 1);
    assert!(matches!(pool.reclaim(5, 5, false, 0), Reclaimed::Failed(5)));
    assert_eq!(pool.total(), 0);
    pool.discard_worker();
    assert_eq!(pool.total(), 0);
}

#[test]
fn a_worker_reporting_twice_is_kept_once() {
    let mut pool: WorkerPool<u32, u8> = WorkerPool::new();
    assert!(pool.push_worker(3, 3, 0));
    assert!(!pool.push_worker(3, 3, 10));
    assert!(matches!(pool.reclaim(3, 3, true, 20), Reclaimed::Duplicate(3)));
}

#[test]
fn idle_workers_are_terminated_after_the_timeout() {
    let mut pool: WorkerPool<u32, u8> = WorkerPool::new();
    for _ in 0..3 {
        pool.queue_task(0);
        assert!(matches!(pool.next_run(), Some((0, Assignment::Create))));
    }
    for worker in 0..3 {
        pool.reclaim(worker, worker as u64, true, worker as u64 * 5_000);
    }
    assert_eq!(pool.total(), 3);
    let expired = pool.remove_inactive_workers(IDLE_TIMEOUT_MILLIS + 5_000);
    assert_eq!(expired, vec![0, 1]);
    assert_eq!(pool.total(), 1);
    pool.queue_task(9);
    assert!(matches!(pool.next_run(), Some((9, Assignment::Reuse(2)))));
}

#[test]
fn management_stops_when_idle_and_starts_again() {
    let mut pool: WorkerPool<u32, u8> = WorkerPool::new();
    assert!(pool.needs_managing());
    assert!(!pool.needs_managing());
    pool.queue_task(1);
    assert!(pool.keep_managing());
    pool.next_run();
    assert!(pool.keep_managing());
    pool.discard_worker();
    assert!(!pool.keep_managing());
    assert!(pool.needs_managing());
}
