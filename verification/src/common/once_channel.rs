//! A channel that carries a single value.

use vstd::prelude::*;
use std::task::Waker;

verus! {

/// The state of a channel that carries a single value: the value until the
/// receiver takes it, the waker of the receiver waiting on it, and whether
/// it has been sent, which stays true after the value is taken.
pub struct OnceChannel<T> {
    value: Option<T>,
    waker: Option<Waker>,
    sent: bool,
}

/// The value slot and the sent flag after sending `value` into a channel
/// whose slot and flag are `slot` and `sent`: only the first send counts.
pub open spec fn spec_after_send<T>(slot: Option<T>, sent: bool, value: T) -> (Option<T>, bool) {
    if sent {
        (slot, sent)
    } else {
        (Some(value), true)
    }
}

/// Creates the state of a channel that carries a single value,
/// with nothing sent and nobody waiting.
pub fn once_channel<T>() -> (channel: OnceChannel<T>)
    ensures
        channel.spec_value() is None,
        channel.spec_waker() is None,
        !channel.spec_sent(),
{
    OnceChannel { value: None, waker: None, sent: false }
}

impl<T> OnceChannel<T> {
    /// The sent value, until the receiver takes it.
    pub closed spec fn spec_value(&self) -> Option<T> {
        self.value
    }

    /// The waker of the receiver waiting on the value.
    pub closed spec fn spec_waker(&self) -> Option<Waker> {
        self.waker
    }

    /// Whether the value has been sent.
    pub closed spec fn spec_sent(&self) -> bool {
        self.sent
    }

    /// Sends the value, handing back the receiver's waker, if it waits, to
    /// be woken once the lock is let go. Only the first call has an effect.
    pub fn send(&mut self, value: T) -> (to_wake: Option<Waker>)
        ensures
            (final(self).spec_value(), final(self).spec_sent()) == spec_after_send(
                old(self).spec_value(),
                old(self).spec_sent(),
                value,
            ),
            old(self).spec_sent() ==> to_wake is None && final(self).spec_waker() == old(self).spec_waker(),
            !old(self).spec_sent() ==> to_wake == old(self).spec_waker() && final(self).spec_waker() is None,
    {
        if self.sent {
            return None;
        }
        self.sent = true;
        self.value = Some(value);
        self.waker.take()
    }

    /// Returns whether the value has been sent,
    /// whether or not it has been received yet.
    pub fn is_done(&self) -> (done: bool)
        ensures
            done == self.spec_sent(),
    {
        self.sent
    }

    /// Takes the value if it has arrived; otherwise registers `waker`, the
    /// waker of this poll, to be woken when it does, in place of any waker
    /// of an earlier poll. Both happen under one lock, so a value sent from
    /// another thread cannot slip in between.
    pub fn poll(&mut self, waker: Waker) -> (received: Option<T>)
        ensures
            final(self).spec_sent() == old(self).spec_sent(),
            received == old(self).spec_value(),
            final(self).spec_value() is None,
            old(self).spec_value() is Some ==> final(self).spec_waker() == old(self).spec_waker(),
            old(self).spec_value() is None ==> final(self).spec_waker() == Some(waker),
    {
        match self.value.take() {
            Some(value) => Some(value),
            None => {
                self.waker = Some(waker);
                None
            },
        }
    }

    /// Registers `waker` to be woken when the value arrives, without taking
    /// it. If it has already been sent, the waker is handed back at once,
    /// to be woken right away.
    pub fn register(&mut self, waker: Waker) -> (to_wake: Option<Waker>)
        ensures
            final(self).spec_sent() == old(self).spec_sent(),
            final(self).spec_value() == old(self).spec_value(),
            old(self).spec_sent() ==> to_wake == Some(waker) && final(self).spec_waker() == old(self).spec_waker(),
            !old(self).spec_sent() ==> to_wake is None && final(self).spec_waker() == Some(waker),
    {
        if self.sent {
            return Some(waker);
        }
        self.waker = Some(waker);
        None
    }
}

/// Only the first send delivers: on a channel that nothing was sent into,
/// sending `first` and then `second` leaves `first` in the slot, and the
/// channel reports itself done from the first send on.
pub proof fn lemma_only_the_first_send_delivers<T>(slot: Option<T>, first: T, second: T)
    ensures
        ({
            let after_first = spec_after_send(slot, false, first);
            let after_second = spec_after_send(after_first.0, after_first.1, second);
            &&& after_first == (Some(first), true)
            &&& after_second == (Some(first), true)
        }),
{
}

} // verus!
