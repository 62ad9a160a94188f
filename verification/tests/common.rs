use std::sync::Arc;
use std::sync::atomic::{AtomicUsize, Ordering};
use std::task::{Wake, Waker};
use tokio_with_wasm::common::{CompletionQueue, local_channel, once_channel};

struct Counter {
    wakes: AtomicUsize,
}

impl Wake for Counter {
    fn wake(self: Arc<Self>) {
        self.wakes.fetch_add(1, Ordering::SeqCst);
    }
}

fn counting_waker() -> (Arc<Counter>, Waker) {
    let counter = Arc::new(Counter { wakes: AtomicUsize::new(0) });
    let waker = Waker::from(counter.clone());
    (counter, waker)
}

fn wakes(counter: &Counter) -> usize {
    counter.wakes.load(Ordering::SeqCst)
}

#[test]
fn tags_come_out_in_completion_order() {
    let mut queue = CompletionQueue::new();
    let (counter, waker) = counting_waker();
    assert_eq!(queue.pop_or_register(waker.clone()), None);
    if let Some(consumer) = queue.complete(3u64) {
        consumer.wake();
    }
    assert_eq!(wakes(&counter), 1);
    // The consumer is woken once per registration.
    assert!(queue.complete(1).is_none());
    assert_eq!(queue.pop(), Some(3));
    assert_eq!(queue.pop_or_register(waker.clone()), Some(1));
    assert_eq!(queue.pop(), None);
}

#[test]
fn a_value_sent_before_polling_is_ready() {
    let mut channel = once_channel();
    let (_, waker) = counting_waker();
    assert!(channel.send(5).is_none());
    assert!(channel.is_done());
    assert_eq!(channel.poll(waker.clone()), Some(5));
    // The value is taken once; the channel stays done.
    assert_eq!(channel.poll(waker.clone()), None);
    assert!(channel.is_done());
}

#[test]
fn only_the_first_send_delivers_and_wakes() {
    let mut channel = once_channel();
    let (counter, waker) = counting_waker();
    assert_eq!(channel.poll(waker.clone()), None);
    assert!(!channel.is_done());
    if let Some(receiver) = channel.send(1) {
        receiver.wake();
    }
    assert!(channel.send(2).is_none());
    assert_eq!(wakes(&counter), 1);
    assert_eq!(channel.poll(waker.clone()), Some(1));
}

#[test]
fn registering_on_a_done_channel_wakes_at_once() {
    let mut channel = once_channel::<u8>();
    let (_, waker) = counting_waker();
    assert!(channel.register(waker.clone()).is_none());
    assert!(channel.send(9).is_some());
    assert!(channel.register(waker).is_some());
}

#[test]
fn local_items_arrive_in_the_order_sent() {
    let mut channel = local_channel();
    let (counter, waker) = counting_waker();
    assert_eq!(channel.poll_next(waker.clone()), None);
    if let Some(receiver) = channel.send('a') {
        receiver.wake();
    }
    assert!(channel.send('b').is_none());
    assert_eq!(wakes(&counter), 1);
    assert_eq!(channel.poll_next(waker.clone()), Some(Some('a')));
    assert_eq!(channel.poll_next(waker.clone()), Some(Some('b')));
    assert_eq!(channel.poll_next(waker.clone()), None);
}

#[test]
fn a_closed_local_channel_drains_then_ends() {
    let mut channel = local_channel();
    let (counter, waker) = counting_waker();
    channel.send(1);
    assert_eq!(channel.poll_next(waker.clone()), Some(Some(1)));
    assert_eq!(channel.poll_next(waker.clone()), None);
    channel.send(2);
    assert_eq!(wakes(&counter), 0);
    if let Some(receiver) = channel.close_sender() {
        receiver.wake();
    }
    assert_eq!(channel.poll_next(waker.clone()), Some(Some(2)));
    assert_eq!(channel.poll_next(waker.clone()), Some(None));
    // Items sent after closing are dropped.
    assert!(channel.send(3).is_none());
    assert_eq!(channel.poll_next(waker.clone()), Some(None));
    let mut other = local_channel::<u8>();
    other.close_receiver();
    other.send(4);
    assert_eq!(other.poll_next(waker.clone()), Some(None));
}

/// Wakes what a state operation handed back to be woken.
fn wake(to_wake: Option<Waker>) {
    if let Some(waker) = to_wake {
        waker.wake();
    }
}

#[test]
fn a_completion_wakes_the_registered_consumer() {
    let mut queue = CompletionQueue::new();
    let (counter, waker) = counting_waker();
    assert_eq!(queue.pop_or_register(waker.clone()), None);
    wake(queue.complete(7u64));
    assert_eq!(wakes(&counter), 1);
    assert_eq!(queue.pop_or_register(waker.clone()), Some(7));
    // The pop above found a tag, so no waker was registered:
    // this completion has nobody to wake.
    wake(queue.complete(8));
    assert_eq!(wakes(&counter), 1);
}

#[test]
fn a_queued_completion_is_popped_instead_of_registering() {
    let mut queue = CompletionQueue::new();
    wake(queue.complete(1u64));
    let (counter, waker) = counting_waker();
    assert_eq!(queue.pop_or_register(waker.clone()), Some(1));
    assert_eq!(wakes(&counter), 0);
}

#[test]
fn send_wakes_the_registered_waker_once() {
    let mut channel = once_channel();
    let (counter, waker) = counting_waker();
    assert_eq!(channel.poll(waker.clone()), None);
    assert_eq!(wakes(&counter), 0);
    wake(channel.send(7));
    assert_eq!(wakes(&counter), 1);
    assert_eq!(channel.poll(waker.clone()), Some(7));
}

#[test]
fn is_done_stays_true_after_the_value_is_taken() {
    let mut channel = once_channel();
    assert!(!channel.is_done());
    wake(channel.send(1));
    assert!(channel.is_done());
    let (_, waker) = counting_waker();
    let _ = channel.poll(waker.clone());
    assert!(channel.is_done());
}

#[test]
fn only_the_first_send_delivers() {
    let mut channel = once_channel();
    wake(channel.send(1));
    wake(channel.send(2));
    let (_, waker) = counting_waker();
    assert_eq!(channel.poll(waker.clone()), Some(1));
}

#[test]
fn items_arrive_in_sending_order() {
    let mut channel = local_channel();
    wake(channel.send(1));
    wake(channel.send(2));
    wake(channel.send(3));
    let (_, waker) = counting_waker();
    assert_eq!(channel.poll_next(waker.clone()), Some(Some(1)));
    assert_eq!(channel.poll_next(waker.clone()), Some(Some(2)));
    assert_eq!(channel.poll_next(waker.clone()), Some(Some(3)));
    assert_eq!(channel.poll_next(waker.clone()), None);
}

#[test]
fn send_wakes_the_waiting_receiver() {
    let mut channel = local_channel();
    let (counter, waker) = counting_waker();
    assert_eq!(channel.poll_next(waker.clone()), None);
    assert_eq!(wakes(&counter), 0);
    wake(channel.send(9));
    assert_eq!(wakes(&counter), 1);
    assert_eq!(channel.poll_next(waker.clone()), Some(Some(9)));
}

#[test]
fn queued_items_survive_the_sender() {
    let mut channel = local_channel();
    wake(channel.send(1));
    wake(channel.send(2));
    wake(channel.close_sender());
    let (_, waker) = counting_waker();
    // The queue drains first; only then does the channel report closure.
    assert_eq!(channel.poll_next(waker.clone()), Some(Some(1)));
    assert_eq!(channel.poll_next(waker.clone()), Some(Some(2)));
    assert_eq!(channel.poll_next(waker.clone()), Some(None));
}

#[test]
fn dropping_the_sender_wakes_the_receiver() {
    let mut channel = local_channel::<i32>();
    let (counter, waker) = counting_waker();
    assert_eq!(channel.poll_next(waker.clone()), None);
    wake(channel.close_sender());
    assert_eq!(wakes(&counter), 1);
    assert_eq!(channel.poll_next(waker.clone()), Some(None));
}

#[test]
fn sending_into_a_dropped_receiver_is_harmless() {
    let mut channel = local_channel();
    channel.close_receiver();
    assert!(channel.send(1).is_none());
}

#[test]
fn only_the_most_recent_poll_waker_is_woken() {
    let (first, first_waker) = counting_waker();
    let (second, second_waker) = counting_waker();

    let mut channel = once_channel();
    assert_eq!(channel.poll(first_waker.clone()), None);
    assert_eq!(channel.poll(second_waker.clone()), None);
    wake(channel.send(1));
    assert_eq!((wakes(&first), wakes(&second)), (0, 1));

    let mut queue = CompletionQueue::new();
    assert_eq!(queue.pop_or_register(first_waker.clone()), None);
    assert_eq!(queue.pop_or_register(second_waker.clone()), None);
    wake(queue.complete(5u64));
    assert_eq!((wakes(&first), wakes(&second)), (0, 2));

    let mut items = local_channel();
    assert_eq!(items.poll_next(first_waker.clone()), None);
    assert_eq!(items.poll_next(second_waker.clone()), None);
    wake(items.send('x'));
    assert_eq!((wakes(&first), wakes(&second)), (0, 3));
}
