//! A bounded, ordered channel between one producer and one consumer.

use std::collections::VecDeque;
use vstd::prelude::*;

verus! {

/// Number of items that the channel of a query holds unless told otherwise.
pub const DEFAULT_CAPACITY: usize = 128;

/// A bounded FIFO channel. It holds at most `capacity` items, hands them
/// out in the order they came in, and each side can leave: after the
/// receiver has left no item is accepted or kept, and after the sender has
/// left the receiver still gets what the channel holds.
pub struct Channel<T> {
    queue: VecDeque<T>,
    capacity: usize,
    sender_open: bool,
    receiver_open: bool,
}

/// What a channel holds and which of its sides are still there.
pub struct ChannelView<T> {
    pub queue: Seq<T>,
    pub capacity: nat,
    pub sender_open: bool,
    pub receiver_open: bool,
}

/// How an attempt to send ended.
#[derive(Debug, Clone, PartialEq, Eq)]
pub enum TrySend<T> {
    /// The channel took the item.
    Sent,
    /// The channel is full; the item comes back.
    Full(T),
    /// Nobody is left to receive; the item comes back.
    Closed(T),
}

/// How an attempt to receive ended.
#[derive(Debug, Clone, PartialEq, Eq)]
pub enum TryRecv<T> {
    /// The oldest item of the channel.
    Item(T),
    /// The channel is empty but the sender is still there.
    Empty,
    /// The channel is empty and the sender has left: the stream has ended.
    Disconnected,
}

impl<T> View for Channel<T> {
    type V = ChannelView<T>;

    closed spec fn view(&self) -> ChannelView<T> {
        ChannelView {
            queue: self.queue@,
            capacity: self.capacity as nat,
            sender_open: self.sender_open,
            receiver_open: self.receiver_open,
        }
    }
}

impl<T> ChannelView<T> {
    /// Whether the channel is within its bound, and empty once the receiver
    /// has left.
    pub open spec fn wf(self) -> bool {
        &&& self.capacity > 0
        &&& self.queue.len() <= self.capacity
        &&& !self.receiver_open ==> self.queue.len() == 0
    }

    /// The channel after an attempt to send `item`, and how the attempt ended.
    pub open spec fn after_send(self, item: T) -> (ChannelView<T>, TrySend<T>) {
        if !self.receiver_open {
            (self, TrySend::Closed(item))
        } else if self.queue.len() >= self.capacity {
            (self, TrySend::Full(item))
        } else {
            (ChannelView { queue: self.queue.push(item), ..self }, TrySend::Sent)
        }
    }

    /// The channel after an attempt to receive, and how the attempt ended.
    pub open spec fn after_recv(self) -> (ChannelView<T>, TryRecv<T>) {
        if self.queue.len() > 0 {
            (ChannelView { queue: self.queue.subrange(1, self.queue.len() as int), ..self }, TryRecv::Item(self.queue[0]))
        } else if self.sender_open {
            (self, TryRecv::Empty)
        } else {
            (self, TryRecv::Disconnected)
        }
    }
}

impl<T> Channel<T> {
    /// Whether the channel is within its bound.
    pub open spec fn wf(&self) -> bool {
        self@.wf()
    }

    /// An empty channel for at most `capacity` items, both sides present.
    pub fn new(capacity: usize) -> (channel: Channel<T>)
        requires
            capacity > 0,
        ensures
            channel.wf(),
            channel@ == (ChannelView {
                queue: Seq::<T>::empty(),
                capacity: capacity as nat,
                sender_open: true,
                receiver_open: true,
            }),
    {
        Channel { queue: VecDeque::new(), capacity, sender_open: true, receiver_open: true }
    }

    /// Number of items that the channel holds.
    pub fn len(&self) -> (n: usize)
        requires
            self.wf(),
        ensures
            n == self@.queue.len(),
            n <= self@.capacity,
    {
        self.queue.len()
    }

    /// The bound that the channel was made with.
    pub fn capacity(&self) -> (n: usize)
        ensures
            n == self@.capacity,
    {
        self.capacity
    }

    /// Whether the receiver is still there.
    pub fn receiver_open(&self) -> (b: bool)
        ensures
            b == self@.receiver_open,
    {
        self.receiver_open
    }

    /// Whether the sender is still there.
    pub fn sender_open(&self) -> (b: bool)
        ensures
            b == self@.sender_open,
    {
        self.sender_open
    }

    /// Offers `item` to the channel without waiting. The item is taken at
    /// the back where the receiver is there and the channel is not full;
    /// otherwise it comes back and the channel is unchanged.
    pub fn try_send(&mut self, item: T) -> (r: TrySend<T>)
        requires
            old(self).wf(),
        ensures
            final(self).wf(),
            (final(self)@, r) == old(self)@.after_send(item),
    {
        if !self.receiver_open {
            TrySend::Closed(item)
        } else if self.queue.len() >= self.capacity {
            TrySend::Full(item)
        } else {
            self.queue.push_back(item);
            TrySend::Sent
        }
    }

    /// Takes the oldest item without waiting.
    pub fn try_recv(&mut self) -> (r: TryRecv<T>)
        requires
            old(self).wf(),
        ensures
            final(self).wf(),
            (final(self)@, r) == old(self)@.after_recv(),
    {
        match self.queue.pop_front() {
            Some(item) => TryRecv::Item(item),
            None => {
                if self.sender_open {
                    TryRecv::Empty
                } else {
                    TryRecv::Disconnected
                }
            },
        }
    }

    /// The sender leaves: the stream ends once the receiver has taken what
    /// the channel still holds.
    pub fn close_sender(&mut self)
        requires
            old(self).wf(),
        ensures
            final(self).wf(),
            final(self)@ == (ChannelView { sender_open: false, ..old(self)@ }),
    {
        self.sender_open = false;
    }

    /// The receiver leaves: what the channel holds is dropped, and every
    /// later attempt to send finds the channel closed.
    pub fn drop_receiver(&mut self)
        requires
            old(self).wf(),
        ensures
            final(self).wf(),
            final(self)@ == (ChannelView {
                queue: Seq::<T>::empty(),
                receiver_open: false,
                ..old(self)@
            }),
    {
        self.queue.clear();
        self.receiver_open = false;
    }
}

} // verus!
