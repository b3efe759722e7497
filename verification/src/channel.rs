//! A bounded, closable first-in-first-out queue: the handoff between two
//! neighbouring pipeline stages.

use std::collections::VecDeque;
use vstd::prelude::*;

verus! {

/// What a channel is, mathematically: the queued items from oldest to
/// newest, the bound on their number, and whether the sending side has been
/// closed.
#[verifier::ext_equal]
pub struct ChannelView<T> {
    pub items: Seq<T>,
    pub capacity: nat,
    pub closed: bool,
}

impl<T> ChannelView<T> {
    /// No more items than the capacity allows.
    pub open spec fn within_bound(self) -> bool {
        self.items.len() <= self.capacity
    }

    /// The channel holds as many items as it may.
    pub open spec fn full(self) -> bool {
        self.items.len() >= self.capacity
    }

    /// Closed, and everything that was sent has been received.
    pub open spec fn drained(self) -> bool {
        self.closed && self.items.len() == 0
    }
}

/// Why a send did not enqueue its item. The item is handed back.
pub enum SendError<T> {
    /// The channel is at capacity: the sender has to wait.
    Full(T),
    /// The channel was closed: nothing will ever be accepted again.
    Closed(T),
}

/// Why a receive produced no item.
#[derive(Clone, Copy, Debug, PartialEq, Eq, Structural)]
pub enum RecvError {
    /// Nothing is queued, but the sender may still send.
    Empty,
    /// Nothing is queued and the channel is closed: the stream has ended.
    Closed,
}

/// A bounded queue with a close flag.
pub struct Channel<T> {
    queue: VecDeque<T>,
    capacity: usize,
    closed: bool,
}

impl<T> View for Channel<T> {
    type V = ChannelView<T>;

    closed spec fn view(&self) -> ChannelView<T> {
        ChannelView { items: self.queue@, capacity: self.capacity as nat, closed: self.closed }
    }
}

impl<T> Channel<T> {
    /// The representation invariant: the queue respects the bound.
    pub open spec fn wf(&self) -> bool {
        self@.within_bound()
    }

    /// An open, empty channel that holds at most `capacity` items.
    pub fn new(capacity: usize) -> (ch: Self)
        ensures
            ch.wf(),
            ch@.items =~= Seq::<T>::empty(),
            ch@.capacity == capacity,
            !ch@.closed,
    {
        Channel { queue: VecDeque::new(), capacity, closed: false }
    }

    /// The bound on the number of queued items.
    pub fn capacity(&self) -> (c: usize)
        ensures
            c == self@.capacity,
    {
        self.capacity
    }

    /// The number of queued items.
    pub fn len(&self) -> (n: usize)
        requires
            self.wf(),
        ensures
            n == self@.items.len(),
    {
        self.queue.len()
    }

    /// Whether nothing is queued.
    pub fn is_empty(&self) -> (b: bool)
        requires
            self.wf(),
        ensures
            b == (self@.items.len() == 0),
    {
        self.queue.len() == 0
    }

    /// Whether a send would have to wait.
    pub fn is_full(&self) -> (b: bool)
        requires
            self.wf(),
        ensures
            b == self@.full(),
    {
        self.queue.len() >= self.capacity
    }

    /// Whether the sending side has been closed.
    pub fn is_closed(&self) -> (b: bool)
        ensures
            b == self@.closed,
    {
        self.closed
    }

    /// Whether the stream has ended: closed and nothing left to receive.
    pub fn is_drained(&self) -> (b: bool)
        requires
            self.wf(),
        ensures
            b == self@.drained(),
    {
        self.closed && self.queue.len() == 0
    }

    /// Enqueues `item` behind everything already queued, unless the channel
    /// is closed or full; then the channel is unchanged and the item comes
    /// back inside the error. Closure is reported in preference to fullness.
    pub fn send(&mut self, item: T) -> (r: Result<(), SendError<T>>)
        requires
            old(self).wf(),
        ensures
            final(self).wf(),
            final(self)@.capacity == old(self)@.capacity,
            final(self)@.closed == old(self)@.closed,
            old(self)@.closed ==> r == Err::<(), SendError<T>>(SendError::Closed(item))
                && final(self)@.items =~= old(self)@.items,
            !old(self)@.closed && old(self)@.full() ==> r == Err::<(), SendError<T>>(
                SendError::Full(item),
            ) && final(self)@.items =~= old(self)@.items,
            !old(self)@.closed && !old(self)@.full() ==> r.is_ok() && final(self)@.items
                =~= old(self)@.items.push(item),
    {
        if self.closed {
            Err(SendError::Closed(item))
        } else if self.queue.len() >= self.capacity {
            Err(SendError::Full(item))
        } else {
            self.queue.push_back(item);
            Ok(())
        }
    }

    /// Dequeues the oldest item. A closed channel still hands out what was
    /// queued before it reports the end of the stream.
    pub fn recv(&mut self) -> (r: Result<T, RecvError>)
        requires
            old(self).wf(),
        ensures
            final(self).wf(),
            final(self)@.capacity == old(self)@.capacity,
            final(self)@.closed == old(self)@.closed,
            old(self)@.items.len() > 0 ==> r == Ok::<T, RecvError>(old(self)@.items[0])
                && final(self)@.items =~= old(self)@.items.drop_first(),
            old(self)@.items.len() == 0 ==> final(self)@.items =~= old(self)@.items && r
                == Err::<T, RecvError>(
                if old(self)@.closed {
                    RecvError::Closed
                } else {
                    RecvError::Empty
                },
            ),
    {
        match self.queue.pop_front() {
            Some(item) => Ok(item),
            None => if self.closed {
                Err(RecvError::Closed)
            } else {
                Err(RecvError::Empty)
            },
        }
    }

    /// Closes the sending side. Queued items stay and can still be received.
    pub fn close(&mut self)
        requires
            old(self).wf(),
        ensures
            final(self).wf(),
            final(self)@ == (ChannelView { closed: true, ..old(self)@ }),
    {
        self.closed = true;
    }

    /// Closes the channel and throws away whatever was still queued.
    /// Returns how many items were discarded.
    pub fn close_discarding(&mut self) -> (discarded: usize)
        requires
            old(self).wf(),
        ensures
            final(self).wf(),
            discarded == old(self)@.items.len(),
            final(self)@.items =~= Seq::<T>::empty(),
            final(self)@.capacity == old(self)@.capacity,
            final(self)@.closed,
    {
        let discarded = self.queue.len();
        self.queue.clear();
        self.closed = true;
        discarded
    }
}

} // verus!
