//! The per-actor run loop as an explicit state machine.
//!
//! The loop lives in one of four phases, entered in this order and never
//! re-entered: `Initializing` (the factory builds the actor), `Running`
//! (timed receives, dispatch and idle polls), `Stopping` (the shutdown hook
//! runs) and `Terminated` (the hosting context tears itself down). The
//! started hook runs exactly once, between `Initializing` and the first
//! `Running` iteration; the stopping hook runs exactly once, only from
//! `Stopping`.
//!
//! [`RunLoop`] records the phase, the configured idle-poll interval and how
//! often each hook has run. The hosting layer performs one timed receive per
//! `Running` iteration and feeds the outcome to [`RunLoop::on_recv`], which
//! decides the next phase and hands back the message to dispatch, if any.

use vstd::prelude::*;

use crate::actor::ActorMessage;
use crate::actor::AddrInner;
use crate::actor::has_stop;

verus! {

/// Phase of an actor's run loop; phases only ever advance.
#[derive(Clone, Copy, PartialEq, Eq, Structural, Debug)]
pub enum Phase {
    /// The factory is building the actor; no message is processed yet.
    Initializing,
    /// The loop performs timed receives, dispatches and idle polls.
    Running,
    /// A Stop entry arrived; the shutdown hook is owed exactly one run.
    Stopping,
    /// The loop has returned; the mailbox is drained and released.
    Terminated,
}

/// Position of a phase in the one-way lifecycle order.
pub open spec fn phase_rank(p: Phase) -> int {
    match p {
        Phase::Initializing => 0,
        Phase::Running => 1,
        Phase::Stopping => 2,
        Phase::Terminated => 3,
    }
}

/// Lifecycle bookkeeping for one actor's run loop.
pub struct RunLoop {
    phase: Phase,
    poll_interval_ms: u64,
    started_calls: u64,
    poll_calls: u64,
    dispatch_calls: u64,
    stopping_calls: u64,
}

impl RunLoop {
    /// Current phase.
    pub closed spec fn phase(&self) -> Phase {
        self.phase
    }

    /// Longest time, in milliseconds, one timed receive waits before the
    /// idle-poll hook fires.
    pub closed spec fn poll_interval_ms(&self) -> u64 {
        self.poll_interval_ms
    }

    /// How often the started hook has run.
    pub closed spec fn started_calls(&self) -> int {
        self.started_calls as int
    }

    /// How often the idle-poll hook has run.
    pub closed spec fn poll_calls(&self) -> int {
        self.poll_calls as int
    }

    /// How many messages have been dispatched to their handler.
    pub closed spec fn dispatch_calls(&self) -> int {
        self.dispatch_calls as int
    }

    /// How often the stopping hook has run.
    pub closed spec fn stopping_calls(&self) -> int {
        self.stopping_calls as int
    }

    /// The hooks run exactly once, at their place in the lifecycle: the
    /// started hook when `Initializing` ends, the stopping hook when
    /// `Stopping` ends.
    pub open spec fn wf(&self) -> bool {
        &&& self.started_calls() == if self.phase() is Initializing {
            0int
        } else {
            1int
        }
        &&& self.stopping_calls() == if self.phase() is Terminated {
            1int
        } else {
            0int
        }
        &&& (self.phase() is Initializing ==> self.poll_calls() == 0 && self.dispatch_calls() == 0)
    }

    /// A fresh run loop for a newly spawned actor.
    pub fn new(poll_interval_ms: u64) -> (rl: RunLoop)
        ensures
            rl.wf(),
            rl.phase() is Initializing,
            rl.poll_interval_ms() == poll_interval_ms,
            rl.poll_calls() == 0,
            rl.dispatch_calls() == 0,
    {
        RunLoop {
            phase: Phase::Initializing,
            poll_interval_ms,
            started_calls: 0,
            poll_calls: 0,
            dispatch_calls: 0,
            stopping_calls: 0,
        }
    }

    /// Current phase.
    pub fn current_phase(&self) -> (p: Phase)
        ensures
            p == self.phase(),
    {
        self.phase
    }

    /// How often the started hook has run.
    pub fn started_count(&self) -> (n: u64)
        ensures
            n as int == self.started_calls(),
    {
        self.started_calls
    }

    /// How often the idle-poll hook has run.
    pub fn poll_count(&self) -> (n: u64)
        ensures
            n as int == self.poll_calls(),
    {
        self.poll_calls
    }

    /// How many messages have been dispatched to their handler.
    pub fn dispatch_count(&self) -> (n: u64)
        ensures
            n as int == self.dispatch_calls(),
    {
        self.dispatch_calls
    }

    /// How often the stopping hook has run.
    pub fn stopping_count(&self) -> (n: u64)
        ensures
            n as int == self.stopping_calls(),
    {
        self.stopping_calls
    }

    /// Current idle-poll interval in milliseconds.
    pub fn poll_rate(&self) -> (ms: u64)
        ensures
            ms == self.poll_interval_ms(),
    {
        self.poll_interval_ms
    }

    /// Changes the idle-poll interval; the actor may do this from inside a
    /// handler, and the next timed receive already uses the new value.
    pub fn set_poll_rate(&mut self, ms: u64)
        ensures
            final(self).poll_interval_ms() == ms,
            final(self).phase() == old(self).phase(),
            final(self).started_calls() == old(self).started_calls(),
            final(self).poll_calls() == old(self).poll_calls(),
            final(self).dispatch_calls() == old(self).dispatch_calls(),
            final(self).stopping_calls() == old(self).stopping_calls(),
            old(self).wf() ==> final(self).wf(),
    {
        self.poll_interval_ms = ms;
    }

    /// Ends `Initializing`: the actor value exists, the started hook runs
    /// (once), and the loop enters `Running`.
    pub fn start_up(&mut self)
        requires
            old(self).wf(),
            old(self).phase() is Initializing,
        ensures
            final(self).wf(),
            final(self).phase() is Running,
            final(self).started_calls() == 1,
            final(self).poll_calls() == 0,
            final(self).dispatch_calls() == 0,
            final(self).poll_interval_ms() == old(self).poll_interval_ms(),
    {
        self.phase = Phase::Running;
        self.started_calls = self.started_calls + 1;
    }

    /// Decides one `Running` iteration from the outcome of the timed
    /// receive.
    ///
    /// A Stop entry moves the loop to `Stopping` and dispatches nothing; a
    /// message keeps the loop `Running` and is handed back to be dispatched
    /// exactly once; an empty outcome (the poll interval elapsed) runs the
    /// idle-poll hook and changes nothing else. The phase never moves
    /// backwards.
    pub fn on_recv<T>(&mut self, item: Option<ActorMessage<T>>) -> (dispatch: Option<T>)
        requires
            old(self).wf(),
            old(self).phase() is Running,
            item is None ==> old(self).poll_calls() < u64::MAX,
            item matches Some(ActorMessage::Message(_)) ==> old(self).dispatch_calls()
                < u64::MAX,
        ensures
            final(self).wf(),
            final(self).poll_interval_ms() == old(self).poll_interval_ms(),
            final(self).started_calls() == old(self).started_calls(),
            final(self).stopping_calls() == 0,
            item is None ==> final(self).phase() is Running && dispatch is None && final(self).poll_calls() == old(self).poll_calls() + 1 && final(self).dispatch_calls() == old(self).dispatch_calls(),
            item == Some(ActorMessage::<T>::Stop) ==> final(self).phase() is Stopping && dispatch
                is None && final(self).poll_calls() == old(self).poll_calls() && final(self).dispatch_calls() == old(self).dispatch_calls(),
            item matches Some(ActorMessage::Message(m)) ==> final(self).phase() is Running
                && dispatch == Some(m) && final(self).dispatch_calls() == old(self).dispatch_calls() + 1 && final(self).poll_calls() == old(self).poll_calls(),
            phase_rank(final(self).phase()) >= phase_rank(old(self).phase()),
    {
        match item {
            None => {
                self.poll_calls = self.poll_calls + 1;
                None
            },
            Some(ActorMessage::Stop) => {
                self.phase = Phase::Stopping;
                None
            },
            Some(ActorMessage::Message(m)) => {
                self.dispatch_calls = self.dispatch_calls + 1;
                Some(m)
            },
        }
    }

    /// Ends `Stopping`: the shutdown hook runs (once) and the loop is
    /// `Terminated`; the hosting context tears itself down afterwards.
    pub fn shut_down(&mut self)
        requires
            old(self).wf(),
            old(self).phase() is Stopping,
        ensures
            final(self).wf(),
            final(self).phase() is Terminated,
            final(self).stopping_calls() == 1,
            final(self).started_calls() == old(self).started_calls(),
            final(self).poll_calls() == old(self).poll_calls(),
            final(self).dispatch_calls() == old(self).dispatch_calls(),
            final(self).poll_interval_ms() == old(self).poll_interval_ms(),
    {
        self.phase = Phase::Terminated;
        self.stopping_calls = self.stopping_calls + 1;
    }
}

/// Messages delivered, in dispatch order, when the run loop consumes `q`
/// from its delivery end: the most recently sent entry first, stopping at
/// the first Stop sentinel encountered.
pub open spec fn dispatched_of<T>(q: Seq<ActorMessage<T>>) -> Seq<T>
    decreases q.len(),
{
    if q.len() == 0 {
        Seq::<T>::empty()
    } else {
        match q.last() {
            ActorMessage::Stop => Seq::<T>::empty(),
            ActorMessage::Message(m) => seq![m] + dispatched_of(q.drop_last()),
        }
    }
}

/// What stays queued after the run loop consumes `q` from its delivery end:
/// everything sent before the Stop sentinel it stopped at, or nothing when
/// no Stop was queued.
pub open spec fn remaining_of<T>(q: Seq<ActorMessage<T>>) -> Seq<ActorMessage<T>>
    decreases q.len(),
{
    if q.len() == 0 {
        Seq::<ActorMessage<T>>::empty()
    } else {
        match q.last() {
            ActorMessage::Stop => q.drop_last(),
            ActorMessage::Message(_) => remaining_of(q.drop_last()),
        }
    }
}

/// Consumes queued entries until the mailbox is empty or a Stop arrives,
/// dispatching each message exactly once.
///
/// Returns the dispatched messages in dispatch order (most recently sent
/// first). On a Stop the loop moves to `Stopping` and leaves the earlier
/// entries queued; on an empty mailbox it stays `Running`, and the hosting
/// layer goes back to its timed receive.
pub fn process_until_idle<T>(inner: &mut AddrInner<T>, rl: &mut RunLoop) -> (msgs: Vec<T>)
    requires
        old(inner).wf(),
        old(rl).wf(),
        old(rl).phase() is Running,
        old(rl).dispatch_calls() + old(inner).mailbox().len() < u64::MAX,
    ensures
        final(inner).wf(),
        final(rl).wf(),
        msgs@ == dispatched_of(old(inner).mailbox()),
        final(inner).mailbox() == remaining_of(old(inner).mailbox()),
        final(inner).strong() == old(inner).strong(),
        final(inner).cap() == old(inner).cap(),
        final(rl).phase() == if has_stop(old(inner).mailbox()) {
            Phase::Stopping
        } else {
            Phase::Running
        },
        final(rl).dispatch_calls() == old(rl).dispatch_calls() + msgs@.len(),
        final(rl).poll_calls() == old(rl).poll_calls(),
        final(rl).started_calls() == old(rl).started_calls(),
        final(rl).poll_interval_ms() == old(rl).poll_interval_ms(),
{
    let ghost orig: Seq<ActorMessage<T>> = inner.mailbox();
    let mut msgs: Vec<T> = Vec::new();
    loop
        invariant_except_break
            rl.phase() is Running,
            msgs@ + dispatched_of(inner.mailbox()) == dispatched_of(orig),
            remaining_of(inner.mailbox()) == remaining_of(orig),
            has_stop(inner.mailbox()) == has_stop(orig),
        invariant
            inner.wf(),
            rl.wf(),
            inner.strong() == old(inner).strong(),
            inner.cap() == old(inner).cap(),
            msgs@.len() + inner.mailbox().len() <= orig.len(),
            rl.dispatch_calls() == old(rl).dispatch_calls() + msgs@.len(),
            old(rl).dispatch_calls() + orig.len() < u64::MAX,
            rl.poll_calls() == old(rl).poll_calls(),
            rl.started_calls() == old(rl).started_calls(),
            rl.poll_interval_ms() == old(rl).poll_interval_ms(),
        ensures
            inner.wf(),
            rl.wf(),
            inner.strong() == old(inner).strong(),
            inner.cap() == old(inner).cap(),
            msgs@ == dispatched_of(orig),
            inner.mailbox() == remaining_of(orig),
            rl.phase() == if has_stop(orig) {
                Phase::Stopping
            } else {
                Phase::Running
            },
            rl.dispatch_calls() == old(rl).dispatch_calls() + msgs@.len(),
            rl.poll_calls() == old(rl).poll_calls(),
            rl.started_calls() == old(rl).started_calls(),
            rl.poll_interval_ms() == old(rl).poll_interval_ms(),
        decreases inner.mailbox().len(),
    {
        let ghost before: Seq<ActorMessage<T>> = inner.mailbox();
        match inner.try_recv() {
            None => {
                proof {
                    assert(dispatched_of(before) == Seq::<T>::empty());
                    assert(!has_stop(before));
                    assert(msgs@ + dispatched_of(before) == dispatched_of(orig));
                    assert(msgs@ =~= dispatched_of(orig));
                }
                break ;
            },
            Some(item) => {
                let dispatch = rl.on_recv(Some(item));
                match dispatch {
                    Some(m) => {
                        proof {
                            assert(before.last() == ActorMessage::Message(m));
                            assert(dispatched_of(before) == seq![m] + dispatched_of(
                                before.drop_last(),
                            ));
                            assert(msgs@ + dispatched_of(before) == dispatched_of(orig));
                            assert((msgs@.push(m)) + dispatched_of(before.drop_last()) =~= msgs@
                                + dispatched_of(before));
                        }
                        msgs.push(m);
                    },
                    None => {
                        proof {
                            assert(before.last() == ActorMessage::<T>::Stop);
                            assert(dispatched_of(before) == Seq::<T>::empty());
                            assert(msgs@ =~= dispatched_of(orig));
                            assert(remaining_of(before) == before.drop_last());
                            assert(inner.mailbox() == before.drop_last());
                            assert(has_stop(before));
                            assert(has_stop(orig));
                        }
                        break ;
                    },
                }
            },
        }
    }
    msgs
}

/// The mailbox content after the payloads of `msgs` were sent, in order,
/// into an empty mailbox.
pub open spec fn as_messages<T>(msgs: Seq<T>) -> Seq<ActorMessage<T>> {
    msgs.map(|i: int, m: T| ActorMessage::Message(m))
}

/// Messages sent in some order through one address are delivered in the
/// reverse of that order: the most recently sent message is dispatched
/// first, none is lost, none stays queued, and no Stop appears among them.
pub proof fn lemma_dispatch_reverses_sends<T>(msgs: Seq<T>)
    ensures
        dispatched_of(as_messages(msgs)) == msgs.reverse(),
        remaining_of(as_messages(msgs)) == Seq::<ActorMessage<T>>::empty(),
        !has_stop(as_messages(msgs)),
    decreases msgs.len(),
{
    let q = as_messages(msgs);
    if msgs.len() == 0 {
        assert(dispatched_of(q) =~= msgs.reverse());
    } else {
        let m = msgs.last();
        assert(q.last() == ActorMessage::Message(m));
        assert(q.drop_last() =~= as_messages(msgs.drop_last()));
        lemma_dispatch_reverses_sends(msgs.drop_last());
        assert(dispatched_of(q) == seq![m] + msgs.drop_last().reverse());
        assert(seq![m] + msgs.drop_last().reverse() =~= msgs.reverse());
    }
}

/// Messages can only be sent while a strong handle lives, and the Stop is
/// pushed only after the last one is gone, so a queued Stop always sits at
/// the delivery end: the run loop observes it before any message queued
/// earlier, dispatches none of them, and leaves them all for the teardown
/// drain. There is no preemption of a handler already running; the cut is
/// exactly at the Stop.
pub proof fn lemma_stop_preempts_queued_messages<T>(msgs: Seq<T>)
    ensures
        dispatched_of(as_messages(msgs).push(ActorMessage::Stop)) == Seq::<T>::empty(),
        remaining_of(as_messages(msgs).push(ActorMessage::Stop)) == as_messages(msgs),
        has_stop(as_messages(msgs).push(ActorMessage::Stop)),
{
    let q = as_messages(msgs).push(ActorMessage::Stop);
    assert(q.last() == ActorMessage::<T>::Stop);
    assert(q.drop_last() =~= as_messages(msgs));
}

/// Draining a mailbox filled with `msgs` dispatches exactly as many
/// messages as were sent, and each value exactly as often as it was sent:
/// distinct messages are each dispatched exactly once.
pub proof fn lemma_each_message_dispatched_once<T>(msgs: Seq<T>)
    ensures
        dispatched_of(as_messages(msgs)).len() == msgs.len(),
        dispatched_of(as_messages(msgs)).to_multiset() == msgs.to_multiset(),
{
    lemma_dispatch_reverses_sends(msgs);
    msgs.lemma_reverse_to_multiset();
}

} // verus!
