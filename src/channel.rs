//! Bounded first-in first-out delivery channel of one connection.
//!
//! Producers push, the connection's multiplexer is the only consumer. The
//! capacity is fixed when the channel is made: a push into a full channel
//! fails at once and hands the item back, so the channel never grows beyond
//! its capacity.

use vstd::prelude::*;
use std::collections::VecDeque;

verus! {

broadcast use vstd::std_specs::vecdeque::group_vec_dequeue_axioms;

/// How many events a connection's direct channel holds in flight.
pub const DIRECT_CHANNEL_CAPACITY: usize = 250;

/// Why a push failed; the item comes back to the producer.
#[derive(Debug)]
pub enum PushError<T> {
    /// The channel holds as many items as its capacity.
    Full(T),
    /// The connection has torn down, or the channel was closed by its owner.
    Closed(T),
}

/// What a push did, without the item.
#[derive(Clone, Copy, Debug, PartialEq, Eq, Structural)]
pub enum PushOutcome {
    Accepted,
    Full,
    Closed,
}

/// What the consumer got from the channel.
#[derive(Debug)]
pub enum Received<T> {
    /// The oldest queued item.
    Item(T),
    /// Nothing queued yet; more may come.
    Empty,
    /// Nothing queued, and the owner closed the channel: nothing more will come.
    Closed,
}

/// The state of a channel.
pub struct ChannelView<T> {
    /// The queued items, oldest first.
    pub items: Seq<T>,
    pub capacity: nat,
    /// False once the consumer has gone (the connection tore down).
    pub receiver_open: bool,
    /// False once the owner has closed the channel.
    pub senders_open: bool,
}

/// A push on a channel in state `v`: the state after it and what it did.
pub open spec fn spec_push<T>(v: ChannelView<T>, item: T) -> (ChannelView<T>, PushOutcome) {
    if !v.receiver_open || !v.senders_open {
        (v, PushOutcome::Closed)
    } else if v.items.len() >= v.capacity {
        (v, PushOutcome::Full)
    } else {
        (ChannelView { items: v.items.push(item), ..v }, PushOutcome::Accepted)
    }
}

/// Taking from a channel in state `v`: the state after it and what came out.
pub open spec fn spec_pop<T>(v: ChannelView<T>) -> (ChannelView<T>, Received<T>) {
    if v.items.len() > 0 {
        (ChannelView { items: v.items.drop_first(), ..v }, Received::Item(v.items[0]))
    } else if v.senders_open {
        (v, Received::Empty)
    } else {
        (v, Received::Closed)
    }
}

/// The state after the owner closed a channel in state `v`.
pub open spec fn spec_close_senders<T>(v: ChannelView<T>) -> ChannelView<T> {
    ChannelView { senders_open: false, ..v }
}

/// The state after the consumer of a channel in state `v` has gone.
pub open spec fn spec_close_receiver<T>(v: ChannelView<T>) -> ChannelView<T> {
    ChannelView { items: Seq::empty(), receiver_open: false, ..v }
}

/// Pushing `items` one after another, with nobody draining the channel.
pub open spec fn spec_push_all<T>(v: ChannelView<T>, items: Seq<T>) -> (
    ChannelView<T>,
    Seq<PushOutcome>,
)
    decreases items.len(),
{
    if items.len() == 0 {
        (v, Seq::empty())
    } else {
        let (w, outcomes) = spec_push_all(v, items.drop_last());
        let (w2, o) = spec_push(w, items.last());
        (w2, outcomes.push(o))
    }
}

pub struct BoundedChannel<T> {
    queue: VecDeque<T>,
    capacity: usize,
    receiver_open: bool,
    senders_open: bool,
}

impl<T> View for BoundedChannel<T> {
    type V = ChannelView<T>;

    closed spec fn view(&self) -> ChannelView<T> {
        ChannelView {
            items: self.queue@,
            capacity: self.capacity as nat,
            receiver_open: self.receiver_open,
            senders_open: self.senders_open,
        }
    }
}

impl<T> BoundedChannel<T> {
    /// The capacity is positive and never exceeded.
    pub open spec fn wf(&self) -> bool {
        &&& self@.capacity > 0
        &&& self@.items.len() <= self@.capacity
    }

    /// An open, empty channel of the given capacity.
    pub fn new(capacity: usize) -> (r: Self)
        requires
            capacity > 0,
        ensures
            r@.items == Seq::<T>::empty(),
            r@.capacity == capacity,
            r@.receiver_open,
            r@.senders_open,
            r.wf(),
    {
        BoundedChannel { queue: VecDeque::new(), capacity, receiver_open: true, senders_open: true }
    }

    /// An open, empty channel of the direct-delivery capacity.
    pub fn direct() -> (r: Self)
        ensures
            r@.items == Seq::<T>::empty(),
            r@.capacity == DIRECT_CHANNEL_CAPACITY,
            r@.receiver_open,
            r@.senders_open,
            r.wf(),
    {
        Self::new(DIRECT_CHANNEL_CAPACITY)
    }

    /// Queues `item` behind the others. Fails at once, handing the item back,
    /// when the channel is closed or full.
    pub fn push(&mut self, item: T) -> (r: Result<(), PushError<T>>)
        requires
            old(self).wf(),
        ensures
            final(self).wf(),
            (final(self)@, match r {
                Ok(()) => PushOutcome::Accepted,
                Err(PushError::Full(_)) => PushOutcome::Full,
                Err(PushError::Closed(_)) => PushOutcome::Closed,
            }) == spec_push(old(self)@, item),
            r matches Err(PushError::Full(x)) ==> x == item,
            r matches Err(PushError::Closed(x)) ==> x == item,
    {
        if !self.receiver_open || !self.senders_open {
            Err(PushError::Closed(item))
        } else if self.queue.len() >= self.capacity {
            Err(PushError::Full(item))
        } else {
            self.queue.push_back(item);
            Ok(())
        }
    }

    /// Takes the oldest item.
    pub fn pop(&mut self) -> (r: Received<T>)
        requires
            old(self).wf(),
        ensures
            final(self).wf(),
            (final(self)@, r) == spec_pop(old(self)@),
    {
        match self.queue.pop_front() {
            Some(item) => {
                assert(self.queue@ =~= old(self)@.items.drop_first());
                Received::Item(item)
            },
            None => {
                if self.senders_open {
                    Received::Empty
                } else {
                    Received::Closed
                }
            },
        }
    }

    /// The owner closes the channel: later pushes fail, and the consumer sees
    /// the end once it has taken what is queued.
    pub fn close_senders(&mut self)
        requires
            old(self).wf(),
        ensures
            final(self).wf(),
            final(self)@ == spec_close_senders(old(self)@),
    {
        self.senders_open = false;
    }

    /// The consumer has gone: what is queued is dropped and later pushes fail.
    pub fn close_receiver(&mut self)
        requires
            old(self).wf(),
        ensures
            final(self).wf(),
            final(self)@ == spec_close_receiver(old(self)@),
    {
        self.queue = VecDeque::new();
        self.receiver_open = false;
    }

    /// How many items are queued; never more than the capacity.
    pub fn len(&self) -> (r: usize)
        requires
            self.wf(),
        ensures
            r == self@.items.len(),
            r <= self@.capacity,
    {
        self.queue.len()
    }

    /// The fixed capacity, which is positive.
    pub fn capacity(&self) -> (r: usize)
        requires
            self.wf(),
        ensures
            r == self@.capacity,
            r > 0,
    {
        self.capacity
    }

    /// Whether a push would fail for want of room.
    pub fn is_full(&self) -> (r: bool)
        requires
            self.wf(),
        ensures
            r == (self@.items.len() >= self@.capacity),
    {
        self.queue.len() >= self.capacity
    }
}

/// Pushing into an open channel that nobody drains accepts items while there
/// is room and fails every push beyond the capacity; the channel then holds
/// exactly as many items as its capacity, never more.
pub proof fn lemma_push_beyond_capacity<T>(v: ChannelView<T>, items: Seq<T>)
    requires
        v.receiver_open,
        v.senders_open,
        v.items.len() <= v.capacity,
    ensures
        ({
            let (w, outcomes) = spec_push_all(v, items);
            let room = (v.capacity - v.items.len()) as nat;
            let taken = if items.len() <= room { items.len() } else { room };
            &&& outcomes.len() == items.len()
            &&& forall|k: int|
                0 <= k < items.len() ==> #[trigger] outcomes[k] == if v.items.len() + k
                    < v.capacity {
                    PushOutcome::Accepted
                } else {
                    PushOutcome::Full
                }
            &&& w.items == v.items + items.take(taken as int)
            &&& w.items.len() <= w.capacity
            &&& w.capacity == v.capacity
            &&& w.receiver_open && w.senders_open
        }),
    decreases items.len(),
{
    if items.len() > 0 {
        let init = items.drop_last();
        lemma_push_beyond_capacity(v, init);
        let (w, outcomes) = spec_push_all(v, init);
        let room = (v.capacity - v.items.len()) as nat;
        let taken0 = if init.len() <= room { init.len() } else { room };
        let taken = if items.len() <= room { items.len() } else { room };
        if init.len() < room {
            assert(items.take(taken as int) =~= items.take(taken0 as int).push(items.last()));
        } else {
            assert(items.take(taken as int) =~= init.take(taken0 as int));
        }
        let (w2, outs2) = spec_push_all(v, items);
        assert forall|k: int| 0 <= k < items.len() implies #[trigger] outs2[k] == if v.items.len()
            + k < v.capacity {
            PushOutcome::Accepted
        } else {
            PushOutcome::Full
        } by {
            if k < init.len() {
                assert(outs2[k] == outcomes[k]);
            }
        }
    } else {
        assert(v.items + items.take(0) =~= v.items);
    }
}

} // verus!
