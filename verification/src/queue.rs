//! The single queue abstraction the simulation is built from.
//!
//! One `Queue` value stands for one logical FIFO channel of the network: a
//! category's ingress queue, or one node's inbound queue for one category.
//! A queue is unbounded, so enqueuing never fails for capacity; the only
//! failure mode is the endpoint having been permanently closed. Closing
//! keeps the messages already enqueued readable but refuses new ones.

use vstd::prelude::*;

verus! {

/// Mathematical value of a [`Queue`]: whether its endpoint is still open,
/// and the messages it holds, oldest first.
#[verifier::ext_equal]
pub ghost struct QueueModel<T> {
    pub open: bool,
    pub items: Seq<T>,
}

/// What enqueuing one message does: an open queue appends it, a closed
/// queue drops it unchanged.
pub open spec fn send_model<T>(q: QueueModel<T>, t: T) -> QueueModel<T> {
    if q.open {
        QueueModel { open: true, items: q.items.push(t) }
    } else {
        q
    }
}

/// An unbounded FIFO queue with a permanent-close failure mode.
pub struct Queue<T> {
    open: bool,
    items: Vec<T>,
}

impl<T> View for Queue<T> {
    type V = QueueModel<T>;

    closed spec fn view(&self) -> QueueModel<T> {
        QueueModel { open: self.open, items: self.items@ }
    }
}

impl<T> Queue<T> {
    /// A fresh, open, empty queue.
    pub fn new() -> (q: Queue<T>)
        ensures
            q@.open,
            q@.items == Seq::<T>::empty(),
    {
        Queue { open: true, items: Vec::new() }
    }

    /// Permanently close the endpoint. Messages already enqueued stay.
    pub fn close(&mut self)
        ensures
            final(self)@ == (QueueModel { open: false, items: old(self)@.items }),
    {
        self.open = false;
    }

    pub fn is_open(&self) -> (b: bool)
        ensures
            b == self@.open,
    {
        self.open
    }

    pub fn len(&self) -> (n: usize)
        ensures
            n == self@.items.len(),
    {
        self.items.len()
    }

    /// Enqueue one message. Succeeds exactly when the endpoint is open —
    /// capacity is unbounded — and leaves a closed queue unchanged.
    pub fn send(&mut self, t: T) -> (ok: bool)
        ensures
            ok == old(self)@.open,
            final(self)@ == send_model(old(self)@, t),
    {
        if self.open {
            self.items.push(t);
            true
        } else {
            false
        }
    }

    /// Dequeue the oldest message, or report an empty queue. In the live
    /// system the consumer suspends on an empty open queue; a caller of
    /// this model decides for itself what an empty queue means.
    pub fn recv(&mut self) -> (r: Option<T>)
        ensures
            old(self)@.items.len() == 0 ==> r is None && final(self)@ == old(self)@,
            old(self)@.items.len() > 0 ==> r == Some(old(self)@.items[0]) && final(self)@
                == (QueueModel { open: old(self)@.open, items: old(self)@.items.drop_first() }),
    {
        if self.items.len() == 0 {
            None
        } else {
            let t = self.items.remove(0);
            assert(self@.items =~= old(self)@.items.drop_first());
            Some(t)
        }
    }
}

} // verus!
