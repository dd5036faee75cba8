//! The bounded, ordered queue that carries requests from the interface loop
//! to a worker. A full queue hands the request back, so the producer waits
//! until the consumer has taken one out.

use std::collections::VecDeque;
use vstd::prelude::*;

verus! {

/// The queue after `item` was offered to it: taken at the back while there
/// is room, otherwise left as it was.
pub open spec fn offered<T>(queue: Seq<T>, limit: nat, item: T) -> Seq<T> {
    if queue.len() < limit {
        queue.push(item)
    } else {
        queue
    }
}

/// The queue after its consumer asked for the next request.
pub open spec fn served<T>(queue: Seq<T>) -> Seq<T> {
    if queue.len() > 0 {
        queue.drop_first()
    } else {
        queue
    }
}

/// Requests waiting for one consumer, oldest first, never more than the
/// limit the queue was made with.
#[derive(Debug)]
pub struct RequestQueue<T> {
    items: VecDeque<T>,
    capacity: usize,
}

impl<T> View for RequestQueue<T> {
    type V = Seq<T>;

    closed spec fn view(&self) -> Seq<T> {
        self.items@
    }
}

impl<T> RequestQueue<T> {
    #[verifier::type_invariant]
    spec fn bounded(&self) -> bool {
        self.items@.len() <= self.capacity
    }

    /// How many requests the queue holds at most.
    pub closed spec fn limit(&self) -> nat {
        self.capacity as nat
    }

    /// An empty queue that holds up to `capacity` requests.
    pub fn new(capacity: usize) -> (queue: RequestQueue<T>)
        ensures
            queue@ == Seq::<T>::empty(),
            queue.limit() == capacity,
    {
        RequestQueue { items: VecDeque::new(), capacity }
    }

    /// Puts `item` at the back. A full queue takes nothing and hands the
    /// item back: the producer has to wait and offer it again.
    pub fn try_enqueue(&mut self, item: T) -> (outcome: Result<(), T>)
        ensures
            final(self).limit() == old(self).limit(),
            final(self)@ == offered(old(self)@, old(self).limit(), item),
            final(self)@.len() <= final(self).limit(),
            old(self)@.len() < old(self).limit() ==> outcome is Ok,
            old(self)@.len() >= old(self).limit() ==> outcome == Err::<(), T>(item),
    {
        proof {
            use_type_invariant(&*self);
        }
        if self.items.len() < self.capacity {
            let mut items: VecDeque<T> = VecDeque::new();
            core::mem::swap(&mut items, &mut self.items);
            items.push_back(item);
            core::mem::swap(&mut items, &mut self.items);
            Ok(())
        } else {
            Err(item)
        }
    }

    /// Takes the oldest request out, if there is one.
    pub fn dequeue(&mut self) -> (next: Option<T>)
        ensures
            final(self).limit() == old(self).limit(),
            final(self)@ == served(old(self)@),
            old(self)@.len() > 0 ==> next == Some(old(self)@[0]),
            old(self)@.len() == 0 ==> next is None,
    {
        proof {
            use_type_invariant(&*self);
        }
        let mut items: VecDeque<T> = VecDeque::new();
        core::mem::swap(&mut items, &mut self.items);
        let next = items.pop_front();
        core::mem::swap(&mut items, &mut self.items);
        next
    }

    /// How many requests are waiting.
    pub fn len(&self) -> (n: usize)
        ensures
            n == self@.len(),
            n <= self.limit(),
    {
        proof {
            use_type_invariant(self);
        }
        self.items.len()
    }

    /// Whether no request is waiting.
    pub fn is_empty(&self) -> (empty: bool)
        ensures
            empty == (self@.len() == 0),
    {
        self.items.len() == 0
    }

    /// Whether the next offer would be handed back.
    pub fn is_full(&self) -> (full: bool)
        ensures
            full == (self@.len() >= self.limit()),
    {
        self.items.len() >= self.capacity
    }

    /// How many requests the queue holds at most.
    pub fn capacity(&self) -> (capacity: usize)
        ensures
            capacity == self.limit(),
    {
        self.capacity
    }
}

/// One use of a queue by either of its two sides.
pub enum QueueOp<T> {
    /// The producer offers a request.
    Offer(T),
    /// The consumer asks for the next request.
    Take,
}

/// What has happened to a queue so far.
pub struct QueueHistory<T> {
    /// The requests still waiting.
    pub waiting: Seq<T>,
    /// Every request the queue took in, in the order of the offers.
    pub accepted: Seq<T>,
    /// Every request the consumer received, in the order of receipt.
    pub delivered: Seq<T>,
}

/// The history of a queue that started empty and then saw `ops`.
pub open spec fn replay<T>(limit: nat, ops: Seq<QueueOp<T>>) -> QueueHistory<T>
    decreases ops.len(),
{
    if ops.len() == 0 {
        QueueHistory { waiting: Seq::empty(), accepted: Seq::empty(), delivered: Seq::empty() }
    } else {
        let before = replay(limit, ops.drop_last());
        match ops.last() {
            QueueOp::Offer(item) => if before.waiting.len() < limit {
                QueueHistory {
                    waiting: offered(before.waiting, limit, item),
                    accepted: before.accepted.push(item),
                    delivered: before.delivered,
                }
            } else {
                before
            },
            QueueOp::Take => if before.waiting.len() > 0 {
                QueueHistory {
                    waiting: served(before.waiting),
                    accepted: before.accepted,
                    delivered: before.delivered.push(before.waiting[0]),
                }
            } else {
                before
            },
        }
    }
}

/// Delivery is first in, first out: whatever the two sides do and in
/// whatever order, the requests delivered so far followed by those still
/// waiting are exactly the requests taken in, in the order of their offers;
/// and the queue never holds more than its limit.
pub proof fn lemma_delivery_in_offer_order<T>(limit: nat, ops: Seq<QueueOp<T>>)
    ensures
        replay(limit, ops).delivered + replay(limit, ops).waiting == replay(limit, ops).accepted,
        replay(limit, ops).waiting.len() <= limit,
    decreases ops.len(),
{
    if ops.len() > 0 {
        lemma_delivery_in_offer_order(limit, ops.drop_last());
        let before = replay(limit, ops.drop_last());
        let after = replay(limit, ops);
        assert(after.delivered + after.waiting =~= after.accepted);
    } else {
        assert(replay(limit, ops).delivered + replay(limit, ops).waiting =~= replay(
            limit,
            ops,
        ).accepted);
    }
}

/// Backpressure: a full queue hands an offer back and stays as it is; once
/// the consumer has taken one request out, the same offer is taken in.
pub proof fn lemma_full_queue_takes_after_one_served<T>(queue: Seq<T>, limit: nat, item: T)
    requires
        queue.len() == limit,
        limit > 0,
    ensures
        offered(queue, limit, item) == queue,
        offered(served(queue), limit, item) == queue.drop_first().push(item),
        offered(served(queue), limit, item).len() == limit,
{
}

} // verus!
