use vstd::prelude::*;

use std::collections::VecDeque;

use crate::error::Error;
use crate::item::Item;

verus! {

/// What travels through the queue to the delivery worker.
#[derive(Debug, Clone)]
pub enum Message {
    /// An item to post to the endpoint.
    Deliver(Item),
    /// No deliveries are accepted after this one.
    Shutdown,
}

/// The queue ends with the shutdown sentinel.
pub open spec fn sentinel_queued(q: Seq<Message>) -> bool {
    q.len() > 0 && q.last() is Shutdown
}

/// Number of deliveries in the queue: every message but a final sentinel.
pub open spec fn deliveries(q: Seq<Message>) -> nat {
    if sentinel_queued(q) {
        (q.len() - 1) as nat
    } else {
        q.len()
    }
}

/// A sentinel may only stand at the end of the queue.
pub open spec fn sentinel_last(q: Seq<Message>) -> bool {
    forall|i: int| 0 <= i < q.len() - 1 ==> (#[trigger] q[i]) is Deliver
}

/// A bounded first-in first-out queue of messages. While open it accepts
/// deliveries up to its capacity; closing it appends the sentinel, which
/// needs no room, and refuses every later delivery.
///
/// It is a plain sequence rather than a channel between threads: the
/// producers and the worker reach it only through the transport, under one
/// lock, so every change to its contents is a call that a contract states.
pub struct DispatchQueue {
    messages: VecDeque<Message>,
    capacity: usize,
    open: bool,
}

impl DispatchQueue {
    pub closed spec fn messages_spec(&self) -> Seq<Message> {
        self.messages@
    }

    pub closed spec fn capacity_spec(&self) -> nat {
        self.capacity as nat
    }

    pub closed spec fn is_open_spec(&self) -> bool {
        self.open
    }

    pub open spec fn wf(&self) -> bool {
        &&& sentinel_last(self.messages_spec())
        &&& self.is_open_spec() ==> !sentinel_queued(self.messages_spec())
        &&& deliveries(self.messages_spec()) <= self.capacity_spec()
    }

    pub fn new(capacity: usize) -> (r: DispatchQueue)
        ensures
            r.wf(),
            r.messages_spec() == Seq::<Message>::empty(),
            r.capacity_spec() == capacity,
            r.is_open_spec(),
    {
        DispatchQueue { messages: VecDeque::new(), capacity, open: true }
    }

    pub fn len(&self) -> (r: usize)
        ensures
            r == self.messages_spec().len(),
    {
        self.messages.len()
    }

    pub fn capacity(&self) -> (r: usize)
        ensures
            r == self.capacity_spec(),
    {
        self.capacity
    }

    pub fn is_open(&self) -> (r: bool)
        ensures
            r == self.is_open_spec(),
    {
        self.open
    }

    /// Appends a delivery without waiting: `Closed` once the queue is
    /// closed, `QueueFull` when it holds its capacity; either way it is
    /// left as it was.
    pub fn enqueue(&mut self, item: Item) -> (r: Result<(), Error>)
        requires
            old(self).wf(),
        ensures
            final(self).wf(),
            final(self).capacity_spec() == old(self).capacity_spec(),
            final(self).is_open_spec() == old(self).is_open_spec(),
            !old(self).is_open_spec() ==> r == Err::<(), Error>(Error::Closed)
                && final(self).messages_spec() == old(self).messages_spec(),
            old(self).is_open_spec() && old(self).messages_spec().len() >= old(self).capacity_spec()
                ==> r == Err::<(), Error>(Error::QueueFull)
                && final(self).messages_spec() == old(self).messages_spec(),
            old(self).is_open_spec() && old(self).messages_spec().len() < old(self).capacity_spec()
                ==> r == Ok::<(), Error>(())
                && final(self).messages_spec() == old(self).messages_spec().push(Message::Deliver(item)),
    {
        if !self.open {
            return Err(Error::Closed);
        }
        if self.messages.len() >= self.capacity {
            return Err(Error::QueueFull);
        }
        self.messages.push_back(Message::Deliver(item));
        proof {
            let q = self.messages@;
            assert forall|i: int| 0 <= i < q.len() - 1 implies (#[trigger] q[i]) is Deliver by {
                assert(q[i] == old(self).messages@[i]);
            }
        }
        Ok(())
    }

    /// Closes the queue to deliveries, appending the sentinel; a closed queue
    /// is left as it is.
    pub fn close(&mut self)
        requires
            old(self).wf(),
        ensures
            final(self).wf(),
            !final(self).is_open_spec(),
            final(self).capacity_spec() == old(self).capacity_spec(),
            old(self).is_open_spec() ==> final(self).messages_spec() == old(self).messages_spec().push(
                Message::Shutdown,
            ),
            !old(self).is_open_spec() ==> final(self).messages_spec() == old(self).messages_spec(),
    {
        if self.open {
            self.messages.push_back(Message::Shutdown);
            self.open = false;
            proof {
                let q = self.messages@;
                assert forall|i: int| 0 <= i < q.len() - 1 implies (#[trigger] q[i]) is Deliver by {
                    assert(q[i] == old(self).messages@[i]);
                }
                assert(q.drop_last() =~= old(self).messages@);
            }
        }
    }

    /// Takes the oldest message, if any.
    pub fn dequeue(&mut self) -> (r: Option<Message>)
        requires
            old(self).wf(),
        ensures
            final(self).wf(),
            final(self).capacity_spec() == old(self).capacity_spec(),
            final(self).is_open_spec() == old(self).is_open_spec(),
            old(self).messages_spec().len() == 0 ==> r.is_none()
                && final(self).messages_spec() == old(self).messages_spec(),
            old(self).messages_spec().len() > 0 ==> r == Some(old(self).messages_spec()[0])
                && final(self).messages_spec() == old(self).messages_spec().drop_first(),
    {
        let r = self.messages.pop_front();
        proof {
            let q = self.messages@;
            let o = old(self).messages@;
            if o.len() > 0 {
                assert(q =~= o.drop_first());
                assert forall|i: int| 0 <= i < q.len() - 1 implies (#[trigger] q[i]) is Deliver by {
                    assert(q[i] == o[i + 1]);
                }
            }
        }
        r
    }
}

} // verus!
