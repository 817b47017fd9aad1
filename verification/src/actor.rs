//! Reference-counted addressing and the shutdown trigger.
//!
//! Every strong handle to an actor shares one [`AddrInner`], the sole owner
//! of the actor's mailbox. The actor stays alive exactly as long as at least
//! one strong handle exists: releasing the last strong handle is the unique
//! event that owes the mailbox a single Stop item, and pushing that Stop is
//! the only way a Stop item is ever produced. Weak handles never affect
//! lifetime and must be upgraded to a strong handle before use.
//!
//! The hosting layer shares one `AddrInner` value among all handle holders
//! (under its own lock) and calls these transitions on clone, release,
//! upgrade and send. Each transition states exactly how the strong count and
//! the mailbox change, so the shutdown protocol is checked here rather than
//! left to an implicit destructor.

use vstd::prelude::*;

use crate::queue::Queue;

verus! {

/// One mailbox entry: either a request for orderly shutdown or one
/// type-erased message.
pub enum ActorMessage<T> {
    /// Sentinel asking the run loop to shut the actor down.
    Stop,
    /// One message payload, dispatched exactly once when received.
    Message(T),
}

/// True when some queued entry is the Stop sentinel.
pub open spec fn has_stop<T>(q: Seq<ActorMessage<T>>) -> bool
    decreases q.len(),
{
    if q.len() == 0 {
        false
    } else {
        q.last() is Stop || has_stop(q.drop_last())
    }
}

/// Shared core of an actor's address: the mailbox and the count of strong
/// handles that keep the actor alive.
pub struct AddrInner<T> {
    strong: u64,
    queue: Queue<ActorMessage<T>>,
}

impl<T> AddrInner<T> {
    /// Number of strong handles currently alive.
    pub closed spec fn strong(&self) -> int {
        self.strong as int
    }

    /// The queued entries, in send order: the last one is delivered next.
    pub closed spec fn mailbox(&self) -> Seq<ActorMessage<T>> {
        self.queue@
    }

    /// The mailbox capacity chosen at creation.
    pub closed spec fn cap(&self) -> nat {
        self.queue.cap()
    }

    /// The mailbox honours its bound.
    pub open spec fn wf(&self) -> bool {
        1 <= self.cap() && self.mailbox().len() <= self.cap()
    }

    /// Creates the shared core for a freshly spawned actor: an empty mailbox
    /// and exactly one strong handle (the one handed back by spawn).
    ///
    /// Mailbox entries must fit a queue slot; oversized payloads are boxed
    /// by the caller before they ever reach a mailbox.
    pub fn new(cap: usize) -> (inner: AddrInner<T>)
        requires
            cap >= 1,
            vstd::layout::size_of::<ActorMessage<T>>() < crate::queue::MAX_ITEM_BYTES,
        ensures
            inner.wf(),
            inner.strong() == 1,
            inner.mailbox() == Seq::<ActorMessage<T>>::empty(),
            inner.cap() == cap as nat,
    {
        AddrInner { strong: 1, queue: Queue::new(cap) }
    }

    /// Number of strong handles currently alive.
    pub fn strong_count(&self) -> (n: u64)
        ensures
            n as int == self.strong(),
    {
        self.strong
    }

    /// Number of entries currently queued.
    pub fn mailbox_len(&self) -> (n: usize)
        ensures
            n == self.mailbox().len(),
    {
        self.queue.len()
    }

    /// The mailbox capacity chosen at creation.
    pub fn capacity(&self) -> (n: usize)
        ensures
            n as nat == self.cap(),
    {
        self.queue.capacity()
    }

    /// Records one more strong handle; called when a strong address is
    /// cloned, which needs a live handle to clone from.
    pub fn clone_strong(&mut self)
        requires
            old(self).wf(),
            1 <= old(self).strong() < u64::MAX,
        ensures
            final(self).wf(),
            final(self).strong() == old(self).strong() + 1,
            final(self).mailbox() == old(self).mailbox(),
            final(self).cap() == old(self).cap(),
    {
        self.strong = self.strong + 1;
    }

    /// Records the release of one strong handle.
    ///
    /// Returns true exactly when the released handle was the last one; that
    /// caller, and nobody else, then owes the mailbox a single Stop item (see
    /// [`AddrInner::push_stop`]). The mailbox itself is untouched here.
    pub fn release_strong(&mut self) -> (last: bool)
        requires
            old(self).wf(),
            old(self).strong() >= 1,
        ensures
            final(self).wf(),
            final(self).strong() == old(self).strong() - 1,
            final(self).mailbox() == old(self).mailbox(),
            final(self).cap() == old(self).cap(),
            last == (old(self).strong() == 1),
    {
        self.strong = self.strong - 1;
        self.strong == 0
    }

    /// Pushes the single Stop sentinel owed after the last strong handle was
    /// released.
    ///
    /// This is the only operation that produces a Stop entry. It requires
    /// that no strong handle is left, that no Stop is already queued, and
    /// that the mailbox has room; the releasing caller waits for room (the
    /// run loop is still draining) before completing the push.
    pub fn push_stop(&mut self)
        requires
            old(self).wf(),
            old(self).strong() == 0,
            !has_stop(old(self).mailbox()),
            old(self).mailbox().len() < old(self).cap(),
        ensures
            final(self).wf(),
            final(self).strong() == 0,
            final(self).mailbox() == old(self).mailbox().push(ActorMessage::<T>::Stop),
            final(self).cap() == old(self).cap(),
            has_stop(final(self).mailbox()),
    {
        let r = self.queue.send_isr(ActorMessage::Stop);
        proof {
            assert(r is Ok);
        }
    }

    /// Attempts to turn a weak handle into a strong one.
    ///
    /// Succeeds, and records the new strong handle, exactly when at least one
    /// strong handle is still alive; once the last strong handle is gone the
    /// actor is shutting down and the upgrade yields nothing.
    pub fn try_upgrade(&mut self) -> (r: bool)
        requires
            old(self).wf(),
            old(self).strong() < u64::MAX,
        ensures
            final(self).wf(),
            r == (old(self).strong() >= 1),
            r ==> final(self).strong() == old(self).strong() + 1,
            !r ==> final(self).strong() == 0,
            final(self).mailbox() == old(self).mailbox(),
            final(self).cap() == old(self).cap(),
    {
        if self.strong >= 1 {
            self.strong = self.strong + 1;
            true
        } else {
            false
        }
    }

    /// Non-blocking send of one message through a live strong handle.
    ///
    /// With room in the mailbox the message becomes the next entry delivered
    /// (most-recent-first order); on a full mailbox nothing is inserted and
    /// the message is handed back, so a caller that may wait can retry and a
    /// caller that must not wait can report the failure.
    pub fn send_isr(&mut self, msg: T) -> (r: Result<(), T>)
        requires
            old(self).wf(),
            old(self).strong() >= 1,
        ensures
            final(self).wf(),
            final(self).strong() == old(self).strong(),
            final(self).cap() == old(self).cap(),
            old(self).mailbox().len() < old(self).cap() ==> r is Ok && final(self).mailbox()
                == old(self).mailbox().push(ActorMessage::Message(msg)),
            old(self).mailbox().len() == old(self).cap() ==> r == Err::<(), T>(msg)
                && final(self).mailbox() == old(self).mailbox(),
    {
        match self.queue.send_isr(ActorMessage::Message(msg)) {
            Ok(()) => Ok(()),
            Err(back) => match back {
                ActorMessage::Message(m) => Err(m),
                ActorMessage::Stop => {
                    proof {
                        assert(false);
                    }
                    Ok(())
                },
            },
        }
    }

    /// Non-blocking removal of the next entry to deliver, called only by the
    /// owning run loop.
    pub fn try_recv(&mut self) -> (r: Option<ActorMessage<T>>)
        requires
            old(self).wf(),
        ensures
            final(self).wf(),
            final(self).strong() == old(self).strong(),
            final(self).cap() == old(self).cap(),
            old(self).mailbox().len() == 0 ==> r is None
                && final(self).mailbox() == old(self).mailbox(),
            old(self).mailbox().len() > 0 ==> r == Some(old(self).mailbox().last())
                && final(self).mailbox() == old(self).mailbox().drop_last(),
    {
        self.queue.try_recv()
    }

    /// Removes and returns every queued entry, in delivery order; teardown
    /// uses this so no boxed message outlives the mailbox.
    pub fn drain(&mut self) -> (r: Vec<ActorMessage<T>>)
        requires
            old(self).wf(),
        ensures
            final(self).wf(),
            final(self).strong() == old(self).strong(),
            final(self).cap() == old(self).cap(),
            final(self).mailbox().len() == 0,
            r@ == old(self).mailbox().reverse(),
    {
        self.queue.drain()
    }
}

/// One event in the life of an actor's strong handles.
#[derive(Clone, Copy, Debug)]
pub enum HandleOp {
    /// A live strong handle was cloned into one more strong handle.
    Retain,
    /// One strong handle was released.
    Release,
}

/// Strong handles alive after `ops`, starting from the single handle that
/// spawn returns.
pub open spec fn strong_after(ops: Seq<HandleOp>) -> int
    decreases ops.len(),
{
    if ops.len() == 0 {
        1
    } else {
        strong_after(ops.drop_last()) + match ops.last() {
            HandleOp::Retain => 1int,
            HandleOp::Release => -1int,
        }
    }
}

/// Stop items enqueued after `ops`: a release performed on the last live
/// handle enqueues one.
pub open spec fn stops_after(ops: Seq<HandleOp>) -> int
    decreases ops.len(),
{
    if ops.len() == 0 {
        0
    } else {
        stops_after(ops.drop_last()) + if ops.last() is Release && strong_after(ops.drop_last())
            == 1 {
            1int
        } else {
            0int
        }
    }
}

/// Every operation happens through a live handle: cloning needs a handle to
/// clone from, and only an existing handle can be released.
pub open spec fn valid_ops(ops: Seq<HandleOp>) -> bool {
    forall|i: int| 0 <= i < ops.len() ==> strong_after(#[trigger] ops.take(i)) >= 1
}

proof fn lemma_valid_ops_prefix(ops: Seq<HandleOp>)
    requires
        valid_ops(ops),
        ops.len() > 0,
    ensures
        valid_ops(ops.drop_last()),
{
    let p = ops.drop_last();
    assert forall|i: int| 0 <= i < p.len() implies strong_after(#[trigger] p.take(i)) >= 1 by {
        assert(p.take(i) =~= ops.take(i));
        assert(strong_after(ops.take(i)) >= 1);
    }
}

/// However strong handles are cloned and released, a Stop is enqueued
/// exactly when the last handle has been released, and never before.
pub proof fn lemma_stop_exactly_once(ops: Seq<HandleOp>)
    requires
        valid_ops(ops),
    ensures
        stops_after(ops) == if strong_after(ops) == 0 {
            1int
        } else {
            0int
        },
        strong_after(ops) >= 0,
    decreases ops.len(),
{
    if ops.len() > 0 {
        let p = ops.drop_last();
        lemma_valid_ops_prefix(ops);
        lemma_stop_exactly_once(p);
        assert(ops.take(ops.len() - 1) =~= p);
        assert(strong_after(p) >= 1);
    }
}

/// For any interleaving of clones and releases that ends with every strong
/// handle released, exactly one Stop item is enqueued, and it is enqueued
/// only by the final release: every proper prefix of the history has
/// enqueued none.
pub proof fn lemma_stop_only_at_last_release(ops: Seq<HandleOp>)
    requires
        valid_ops(ops),
        strong_after(ops) == 0,
    ensures
        stops_after(ops) == 1,
        forall|i: int| 0 <= i < ops.len() ==> stops_after(#[trigger] ops.take(i)) == 0,
{
    lemma_stop_exactly_once(ops);
    assert forall|i: int| 0 <= i < ops.len() implies stops_after(#[trigger] ops.take(i)) == 0 by {
        lemma_valid_ops_take(ops, i);
        lemma_stop_exactly_once(ops.take(i));
        assert(strong_after(ops.take(i)) >= 1);
    }
}

proof fn lemma_strong_after_bound(ops: Seq<HandleOp>)
    ensures
        strong_after(ops) <= 1 + ops.len(),
    decreases ops.len(),
{
    if ops.len() > 0 {
        lemma_strong_after_bound(ops.drop_last());
    }
}

/// Replays a handle history against a fresh address core, each clone and
/// release going through the executable transitions, with the releasing
/// caller of the last handle pushing the Stop it owes.
///
/// For every valid history the mailbox ends holding exactly one Stop when
/// all handles were released, and nothing at all otherwise — the executable
/// counterpart of [`lemma_stop_only_at_last_release`].
pub fn replay_handle_ops<T>(ops: &Vec<HandleOp>, cap: usize) -> (inner: AddrInner<T>)
    requires
        cap >= 1,
        vstd::layout::size_of::<ActorMessage<T>>() < crate::queue::MAX_ITEM_BYTES,
        valid_ops(ops@),
        ops@.len() < u64::MAX,
    ensures
        inner.wf(),
        inner.strong() == strong_after(ops@),
        inner.mailbox() == if strong_after(ops@) == 0 {
            seq![ActorMessage::<T>::Stop]
        } else {
            Seq::<ActorMessage<T>>::empty()
        },
{
    let mut inner: AddrInner<T> = AddrInner::new(cap);
    let n = ops.len();
    let mut i: usize = 0;
    proof {
        assert(ops@.take(0) =~= Seq::<HandleOp>::empty());
    }
    while i < n
        invariant
            inner.wf(),
            inner.cap() == cap as nat,
            valid_ops(ops@),
            n == ops@.len(),
            n < u64::MAX,
            i <= n,
            inner.strong() == strong_after(ops@.take(i as int)),
            inner.mailbox() == if strong_after(ops@.take(i as int)) == 0 {
                seq![ActorMessage::<T>::Stop]
            } else {
                Seq::<ActorMessage<T>>::empty()
            },
        decreases n - i,
    {
        let ghost p = ops@.take(i as int);
        let ghost p1 = ops@.take(i as int + 1);
        proof {
            assert(p1.drop_last() =~= p);
            assert(p1.last() == ops@[i as int]);
            assert(strong_after(p) >= 1);
            lemma_strong_after_bound(p);
        }
        match ops[i] {
            HandleOp::Retain => {
                inner.clone_strong();
            },
            HandleOp::Release => {
                let last = inner.release_strong();
                if last {
                    proof {
                        assert(!has_stop(inner.mailbox()));
                        assert(Seq::<ActorMessage<T>>::empty().push(ActorMessage::Stop)
                            =~= seq![ActorMessage::<T>::Stop]);
                    }
                    inner.push_stop();
                }
            },
        }
        i = i + 1;
    }
    proof {
        assert(ops@.take(n as int) =~= ops@);
    }
    inner
}

proof fn lemma_valid_ops_take(ops: Seq<HandleOp>, n: int)
    requires
        valid_ops(ops),
        0 <= n <= ops.len(),
    ensures
        valid_ops(ops.take(n)),
{
    let p = ops.take(n);
    assert forall|i: int| 0 <= i < p.len() implies strong_after(#[trigger] p.take(i)) >= 1 by {
        assert(p.take(i) =~= ops.take(i));
        assert(strong_after(ops.take(i)) >= 1);
    }
}

} // verus!
