//! The ordered handoff queue that carries ownership from one driver to the
//! other.

use std::collections::VecDeque;
use vstd::prelude::*;

verus! {

/// What a `Handoff` is, seen from outside: the items under way, oldest first,
/// and which of its two ends are still held.
pub struct HandoffView<T> {
    /// What was sent and not yet received, oldest first.
    pub pending: Seq<T>,
    /// Whether the sending end is still held.
    pub sender_open: bool,
    /// Whether the receiving end is still held.
    pub receiver_open: bool,
}

impl<T> HandoffView<T> {
    /// A send is accepted while both ends are held.
    pub open spec fn accepts(self) -> bool {
        self.sender_open && self.receiver_open
    }

    /// A receive yields an item while the receiving end is held and
    /// something is under way, whether or not the sender still exists.
    pub open spec fn yields(self) -> bool {
        self.receiver_open && self.pending.len() > 0
    }

    /// A receive would have to wait: nothing is under way, but the sender
    /// may still send.
    pub open spec fn waits(self) -> bool {
        self.receiver_open && self.pending.len() == 0 && self.sender_open
    }
}

/// The outcome of one attempt to receive.
pub enum Received<T> {
    /// The oldest item under way.
    Item(T),
    /// Nothing is under way yet; the sender is still there.
    Empty,
    /// Nothing is under way and nothing will ever come.
    Disconnected,
}

/// A single-producer, single-consumer queue that moves items in the order
/// in which they were sent. It never refuses an item for want of room.
pub struct Handoff<T> {
    queue: VecDeque<T>,
    sender_open: bool,
    receiver_open: bool,
}

impl<T> View for Handoff<T> {
    type V = HandoffView<T>;

    closed spec fn view(&self) -> HandoffView<T> {
        HandoffView {
            pending: self.queue@,
            sender_open: self.sender_open,
            receiver_open: self.receiver_open,
        }
    }
}

impl<T> Handoff<T> {
    /// An empty queue with both ends held.
    pub fn new() -> (handoff: Self)
        ensures
            handoff@ == (HandoffView::<T> {
                pending: Seq::empty(),
                sender_open: true,
                receiver_open: true,
            }),
    {
        Handoff { queue: VecDeque::new(), sender_open: true, receiver_open: true }
    }

    /// Sends `item`. The item is handed back when either end is gone.
    pub fn send(&mut self, item: T) -> (sent: Result<(), T>)
        ensures
            old(self)@.accepts() ==> sent is Ok && final(self)@ == (HandoffView {
                pending: old(self)@.pending.push(item),
                ..old(self)@
            }),
            !old(self)@.accepts() ==> sent == Err::<(), T>(item) && final(self)@ == old(self)@,
    {
        if self.sender_open && self.receiver_open {
            self.queue.push_back(item);
            Ok(())
        } else {
            Err(item)
        }
    }

    /// Takes the oldest item under way, without waiting for one.
    pub fn recv(&mut self) -> (received: Received<T>)
        ensures
            old(self)@.yields() ==> received == Received::Item(old(self)@.pending[0])
                && final(self)@ == (HandoffView {
                pending: old(self)@.pending.skip(1),
                ..old(self)@
            }),
            old(self)@.waits() ==> received is Empty && final(self)@ == old(self)@,
            !old(self)@.yields() && !old(self)@.waits() ==> received is Disconnected
                && final(self)@ == old(self)@,
    {
        if !self.receiver_open {
            return Received::Disconnected;
        }
        match self.queue.pop_front() {
            Some(item) => Received::Item(item),
            None => {
                if self.sender_open {
                    Received::Empty
                } else {
                    Received::Disconnected
                }
            },
        }
    }

    /// Gives up the sending end. What is under way can still be received.
    pub fn close_sender(&mut self)
        ensures
            final(self)@ == (HandoffView { sender_open: false, ..old(self)@ }),
    {
        self.sender_open = false;
    }

    /// Gives up the receiving end. What was under way is discarded; the
    /// result is the number of items lost that way.
    pub fn close_receiver(&mut self) -> (discarded: usize)
        ensures
            discarded == old(self)@.pending.len(),
            final(self)@ == (HandoffView {
                pending: Seq::empty(),
                receiver_open: false,
                ..old(self)@
            }),
    {
        let discarded = self.queue.len();
        self.queue.clear();
        self.receiver_open = false;
        discarded
    }

    /// The number of items under way.
    pub fn len(&self) -> (n: usize)
        ensures
            n == self@.pending.len(),
    {
        self.queue.len()
    }

    /// Whether the sending end is still held.
    pub fn sender_open(&self) -> (open: bool)
        ensures
            open == self@.sender_open,
    {
        self.sender_open
    }

    /// Whether the receiving end is still held.
    pub fn receiver_open(&self) -> (open: bool)
        ensures
            open == self@.receiver_open,
    {
        self.receiver_open
    }
}

} // verus!
