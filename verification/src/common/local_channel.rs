//! An unbounded channel whose halves stay on one thread.

use vstd::prelude::*;
use std::collections::VecDeque;
use std::task::Waker;

verus! {

/// The state of an unbounded channel: the items sent and not yet received,
/// the waker of the receiver waiting on the next one, and whether either
/// half has gone away.
pub struct LocalChannel<T> {
    queue: VecDeque<T>,
    waker: Option<Waker>,
    closed: bool,
}

/// Creates the state of an unbounded channel, empty and open.
pub fn local_channel<T>() -> (channel: LocalChannel<T>)
    ensures
        channel.spec_queue() == Seq::<T>::empty(),
        channel.spec_waker() is None,
        !channel.spec_closed(),
{
    LocalChannel { queue: VecDeque::new(), waker: None, closed: false }
}

impl<T> LocalChannel<T> {
    /// Items sent and not yet received, oldest first.
    pub closed spec fn spec_queue(&self) -> Seq<T> {
        self.queue@
    }

    /// The waker of the receiver waiting on the next item.
    pub closed spec fn spec_waker(&self) -> Option<Waker> {
        self.waker
    }

    /// Whether a half of the channel has gone away.
    pub closed spec fn spec_closed(&self) -> bool {
        self.closed
    }

    /// Sends an item, handing back the waiting receiver's waker to be woken.
    /// Into a closed channel the item is dropped.
    pub fn send(&mut self, item: T) -> (to_wake: Option<Waker>)
        ensures
            final(self).spec_closed() == old(self).spec_closed(),
            old(self).spec_closed() ==> to_wake is None && final(self).spec_queue() == old(self).spec_queue() && final(self).spec_waker() == old(self).spec_waker(),
            !old(self).spec_closed() ==> to_wake == old(self).spec_waker() && final(self).spec_queue() == old(self).spec_queue().push(item) && final(self).spec_waker() is None,
    {
        if self.closed {
            return None;
        }
        self.queue.push_back(item);
        self.waker.take()
    }

    /// Closes the channel because the sender went away, handing back the
    /// waiting receiver's waker so that it learns about it.
    /// Items already sent can still be received.
    pub fn close_sender(&mut self) -> (to_wake: Option<Waker>)
        ensures
            final(self).spec_closed(),
            final(self).spec_queue() == old(self).spec_queue(),
            to_wake == old(self).spec_waker(),
            final(self).spec_waker() is None,
    {
        self.closed = true;
        self.waker.take()
    }

    /// Closes the channel because the receiver went away.
    pub fn close_receiver(&mut self)
        ensures
            final(self).spec_closed(),
            final(self).spec_queue() == old(self).spec_queue(),
            final(self).spec_waker() == old(self).spec_waker(),
    {
        self.closed = true;
    }

    /// Polls for the next item: `Some(Some(item))` with the oldest item,
    /// `Some(None)` once the channel is closed and drained, and `None` when
    /// nothing has arrived yet, after registering `waker`, the waker of this
    /// poll, in place of any earlier one, to be woken when something does.
    pub fn poll_next(&mut self, waker: Waker) -> (polled: Option<Option<T>>)
        ensures
            final(self).spec_closed() == old(self).spec_closed(),
            old(self).spec_queue().len() > 0 ==> polled == Some(Some(old(self).spec_queue()[0]))
                && final(self).spec_queue() == old(self).spec_queue().drop_first() && final(self).spec_waker() == old(self).spec_waker(),
            old(self).spec_queue().len() == 0 && old(self).spec_closed() ==> polled == Some(
                None::<T>,
            ) && final(self).spec_queue() == old(self).spec_queue() && final(self).spec_waker()
                == old(self).spec_waker(),
            old(self).spec_queue().len() == 0 && !old(self).spec_closed() ==> polled is None
                && final(self).spec_queue() == old(self).spec_queue() && final(self).spec_waker()
                == Some(waker),
    {
        match self.queue.pop_front() {
            Some(item) => Some(Some(item)),
            None => if self.closed {
                Some(None)
            } else {
                self.waker = Some(waker);
                None
            },
        }
    }
}

} // verus!
