//! Bounded mailbox queue with most-recent-first delivery.
//!
//! Every insertion goes to the delivery end of the queue, so the item sent
//! last is the item received next (stack-like, not arrival-order FIFO). This
//! ordering is deliberate and is stated explicitly in every contract; callers
//! must not assume conventional FIFO delivery.
//!
//! The queue itself never blocks: `send_isr` reports exhausted capacity
//! instead of waiting, and `try_recv` reports an empty queue instead of
//! waiting. Blocking senders and timed receivers are built around these
//! transitions by the hosting layer, which retries once space or an item is
//! available.

use vstd::prelude::*;

verus! {

/// Largest item size, in bytes, a queue accepts; larger payloads must be
/// heap-boxed before insertion, never inlined, since every slot is sized for
/// one item.
pub const MAX_ITEM_BYTES: usize = 80;

/// A bounded queue of pending items for one actor.
///
/// The abstract value (the view) is the sequence of queued items in send
/// order: the last element of the view is the next item delivered.
pub struct Queue<T> {
    items: Vec<T>,
    cap: usize,
}

impl<T> View for Queue<T> {
    type V = Seq<T>;

    closed spec fn view(&self) -> Seq<T> {
        self.items@
    }
}

impl<T> Queue<T> {
    /// The fixed capacity chosen at creation.
    pub closed spec fn cap(&self) -> nat {
        self.cap as nat
    }

    /// The queue never holds more than its capacity, and capacity is positive.
    pub open spec fn wf(&self) -> bool {
        1 <= self.cap() && self@.len() <= self.cap()
    }

    /// Creates an empty queue sized for at most `cap` items.
    ///
    /// Building a queue whose item type exceeds [`MAX_ITEM_BYTES`] is a
    /// programming-contract violation, not a runtime condition, so it is
    /// excluded here rather than reported.
    pub fn new(cap: usize) -> (q: Queue<T>)
        requires
            cap >= 1,
            vstd::layout::size_of::<T>() < MAX_ITEM_BYTES,
        ensures
            q.wf(),
            q@ == Seq::<T>::empty(),
            q.cap() == cap as nat,
    {
        Queue { items: Vec::new(), cap }
    }

    /// Number of items currently queued.
    pub fn len(&self) -> (n: usize)
        ensures
            n == self@.len(),
    {
        self.items.len()
    }

    /// The fixed capacity chosen at creation.
    pub fn capacity(&self) -> (n: usize)
        ensures
            n as nat == self.cap(),
    {
        self.cap
    }

    /// True when no further item can be inserted.
    pub fn is_full(&self) -> (r: bool)
        ensures
            r == (self@.len() == self.cap()),
    {
        self.items.len() == self.cap
    }

    /// True when there is nothing to deliver.
    pub fn is_empty(&self) -> (r: bool)
        ensures
            r == (self@.len() == 0),
    {
        self.items.len() == 0
    }

    /// Non-blocking insert, safe for callers that must never wait.
    ///
    /// When there is room, the item becomes the next one delivered. When the
    /// queue is full, the item is handed back unchanged and nothing is
    /// inserted.
    pub fn send_isr(&mut self, item: T) -> (r: Result<(), T>)
        requires
            old(self).wf(),
        ensures
            final(self).wf(),
            final(self).cap() == old(self).cap(),
            old(self)@.len() < old(self).cap() ==> r is Ok && final(self)@ == old(self)@.push(item),
            old(self)@.len() == old(self).cap() ==> r == Err::<(), T>(item) && final(self)@ == old(
                self,
            )@,
    {
        if self.items.len() < self.cap {
            self.items.push(item);
            Ok(())
        } else {
            Err(item)
        }
    }

    /// Non-blocking removal of the most recently sent item.
    ///
    /// Returns the last element of the view, or nothing when the queue is
    /// empty. A timed receive is this transition retried until the timeout
    /// elapses.
    pub fn try_recv(&mut self) -> (r: Option<T>)
        requires
            old(self).wf(),
        ensures
            final(self).wf(),
            final(self).cap() == old(self).cap(),
            old(self)@.len() == 0 ==> r is None && final(self)@ == old(self)@,
            old(self)@.len() > 0 ==> r == Some(old(self)@.last()) && final(self)@ == old(
                self,
            )@.drop_last(),
    {
        self.items.pop()
    }

    /// Removes and returns every queued item, in delivery order.
    ///
    /// Teardown uses this so that no queued item outlives the queue: the
    /// result holds each leftover item exactly once, most recently sent
    /// first.
    pub fn drain(&mut self) -> (r: Vec<T>)
        requires
            old(self).wf(),
        ensures
            final(self).wf(),
            final(self).cap() == old(self).cap(),
            final(self)@.len() == 0,
            r@ == old(self)@.reverse(),
    {
        let ghost orig: Seq<T> = self@;
        let mut r: Vec<T> = Vec::new();
        loop
            invariant
                self.wf(),
                self.cap() == old(self).cap(),
                self@ == orig.take(self@.len() as int),
                r@.len() + self@.len() == orig.len(),
                forall|j: int| 0 <= j < r@.len() ==> r@[j] == orig[orig.len() - 1 - j],
            ensures
                self.wf(),
                self.cap() == old(self).cap(),
                self@.len() == 0,
                r@.len() == orig.len(),
                forall|j: int| 0 <= j < r@.len() ==> r@[j] == orig[orig.len() - 1 - j],
            decreases self@.len(),
        {
            match self.try_recv() {
                Some(item) => {
                    r.push(item);
                },
                None => {
                    break ;
                },
            }
        }
        proof {
            assert(r@ =~= orig.reverse());
        }
        r
    }
}

/// A sender blocked on a full mailbox needs only one consumed item: after
/// the run loop receives once, the queue is strictly below capacity, so
/// [`Queue::send_isr`]'s contract owes the retried send an insertion. The
/// waiting itself is the hosting layer's retry; this states the space
/// accounting it relies on. On the same full queue, `send_isr` itself is
/// owed an immediate failure that inserts nothing.
pub proof fn lemma_room_after_one_receive<T>(q: Queue<T>)
    requires
        q.wf(),
        q@.len() == q.cap(),
    ensures
        q@.drop_last().len() < q.cap(),
{
}

} // verus!
