//! The mailbox: the per-actor dispatcher.
//!
//! A mailbox owns exactly one actor state. Calls enter through [`Mailbox::call`],
//! wait in a FIFO queue, and are started by a driver through [`Mailbox::dispatch`]
//! under the readers/writer discipline: an exclusive operation runs only when
//! nothing else is in flight, and while it is in flight nothing else may be
//! started; shared operations may be in flight together. Dispatch, execution
//! and completion are separate events, so an in-flight operation (for instance
//! one suspended on outside work) keeps its grant until the driver reports it
//! finished.
//!
//! The lifecycle runs `Running -> Stopping -> Terminated`. Stopping begins on an
//! explicit [`Mailbox::request_stop`] or when the last strong address is given
//! back; queued calls that were never started fail with [`MailboxClosed`],
//! in-flight ones drain, and the teardown hook runs exactly once on the way to
//! `Terminated`.

use vstd::prelude::*;

use crate::actor::{Actor, MailboxClosed, StrongAddr, WeakAddr};

verus! {

/// Where a mailbox stands in its life.
#[derive(Clone, Copy, Debug, PartialEq, Eq, Structural)]
pub enum Lifecycle {
    /// Accepting and dispatching calls.
    Running,
    /// No longer accepting; in-flight operations are draining.
    Stopping,
    /// Drained, teardown hook done. Final.
    Terminated,
}

/// What has happened to one call's single-use response slot.
#[derive(Clone, Copy, Debug, PartialEq, Eq, Structural)]
pub enum CallPhase {
    /// Waiting in the queue; the slot is empty.
    Queued,
    /// The operation ran and its reply sits in the slot.
    Fulfilled,
    /// The mailbox closed before the operation could run.
    Failed,
    /// The caller has taken the outcome; the slot is spent.
    Resolved,
}

/// One call: the queued operation, its fixed access kind, and its slot.
pub struct CallRecord<Op, R> {
    /// The operation, present while the call is queued.
    pub op: Option<Op>,
    /// Whether the operation is exclusive; fixed when the call is made.
    pub exclusive: bool,
    /// The state of the response slot.
    pub phase: CallPhase,
    /// The reply, present exactly while the phase is `Fulfilled`.
    pub reply: Option<R>,
}

/// Index of a call in its mailbox; the handle the call bridge hands back.
pub type CallId = usize;

/// A repeatable, single-resolution await point for one caller watching a
/// mailbox terminate. Fresh futures may be made at any time, before or after
/// termination; each resolves (at most) once.
pub struct TerminationFuture {
    resolved: bool,
}

impl TerminationFuture {
    /// Whether this future has already resolved.
    pub closed spec fn resolved(self) -> bool {
        self.resolved
    }

    pub fn new() -> (r: TerminationFuture)
        ensures
            !r.resolved(),
    {
        TerminationFuture { resolved: false }
    }
}

/// The mailbox for an actor of behavior `A`.
pub struct Mailbox<A: Actor> {
    state: A,
    life: Lifecycle,
    calls: Vec<CallRecord<A::Op, A::Reply>>,
    served: usize,
    running_shared: usize,
    running_exclusive: bool,
    strong_count: usize,
    teardown_done: bool,
}

impl<A: Actor> Mailbox<A> {
    /// The actor state the mailbox protects.
    pub closed spec fn state(self) -> A {
        self.state
    }

    /// The current lifecycle stage.
    pub closed spec fn life(self) -> Lifecycle {
        self.life
    }

    /// Every call ever made on this mailbox, by id.
    pub closed spec fn calls(self) -> Seq<CallRecord<A::Op, A::Reply>> {
        self.calls@
    }

    /// How many calls have left the queue (started or failed). Calls with
    /// ids below this are no longer queued; those at or above it are.
    pub closed spec fn served(self) -> int {
        self.served as int
    }

    /// How many shared operations are in flight (started, not yet finished).
    pub closed spec fn running_shared(self) -> int {
        self.running_shared as int
    }

    /// Whether an exclusive operation is in flight.
    pub closed spec fn running_exclusive(self) -> bool {
        self.running_exclusive
    }

    /// How many strong addresses to this mailbox are out.
    pub closed spec fn strong(self) -> int {
        self.strong_count as int
    }

    /// Whether the teardown hook has run.
    pub closed spec fn teardown_done(self) -> bool {
        self.teardown_done
    }

    /// The mailbox invariant.
    ///
    /// Its heart is the readers/writer discipline (an in-flight exclusive
    /// operation excludes every other in-flight operation) and the queue
    /// discipline (exactly the calls from `served` on are queued, so dispatch
    /// is FIFO). A closed mailbox has an empty queue, so no call can sit in it
    /// forever; a terminated one has fully drained and torn down.
    pub open spec fn wf(self) -> bool {
        &&& 0 <= self.served() <= self.calls().len()
        &&& forall|i: int|
            0 <= i < self.calls().len() ==> ((#[trigger] self.calls()[i]).phase is Queued <==> self.served() <= i)
        &&& forall|i: int|
            self.served() <= i < self.calls().len() ==> (#[trigger] self.calls()[i]).op is Some
        &&& forall|i: int|
            self.served() <= i < self.calls().len() ==> (#[trigger] self.calls()[i]).exclusive
                == A::op_exclusive(self.calls()[i].op->0)
        &&& forall|i: int|
            0 <= i < self.calls().len() ==> ((#[trigger] self.calls()[i]).phase is Fulfilled
                <==> self.calls()[i].reply is Some)
        &&& self.running_exclusive() ==> self.running_shared() == 0
        &&& !(self.life() is Running) ==> self.served() == self.calls().len()
        &&& self.life() is Terminated ==> self.running_shared() == 0 && !self.running_exclusive()
        &&& self.teardown_done() == self.life() is Terminated
        &&& self.strong() == 0 ==> !(self.life() is Running)
    }

    /// Spawns an actor: moves the state into a fresh mailbox, runs the start
    /// hook (handing the actor a weak address to itself) before any external
    /// call can be accepted, and returns the mailbox with the first strong
    /// address. A failed start hook is fatal to this actor alone: the mailbox
    /// comes back already terminated, torn down, having accepted nothing.
    pub fn spawn(state: A) -> (r: (Mailbox<A>, StrongAddr))
        ensures
            r.0.wf(),
            r.0.calls().len() == 0,
            r.0.served() == 0,
            r.0.running_shared() == 0,
            !r.0.running_exclusive(),
            r.0.strong() == 1,
            A::start_ok(state, WeakAddr) ==> r.0.life() is Running && r.0.state() == A::start_spec(
                state,
                WeakAddr,
            ),
            !A::start_ok(state, WeakAddr) ==> r.0.life() is Terminated && r.0.state()
                == A::stop_spec(A::start_spec(state, WeakAddr)),
    {
        let mut state = state;
        let ok = state.on_start(WeakAddr);
        if ok {
            let mb = Mailbox {
                state,
                life: Lifecycle::Running,
                calls: Vec::new(),
                served: 0,
                running_shared: 0,
                running_exclusive: false,
                strong_count: 1,
                teardown_done: false,
            };
            (mb, StrongAddr::make())
        } else {
            state.on_stop();
            let mb = Mailbox {
                state,
                life: Lifecycle::Terminated,
                calls: Vec::new(),
                served: 0,
                running_shared: 0,
                running_exclusive: false,
                strong_count: 1,
                teardown_done: true,
            };
            (mb, StrongAddr::make())
        }
    }

    /// The call bridge: packages an operation as a pending call of its fixed
    /// kind, appends it to the queue, and hands back the id under which the
    /// reply will arrive. Accepted exactly while the mailbox is running; on a
    /// stopping or terminated mailbox nothing changes and the call resolves
    /// at once to `MailboxClosed`.
    pub fn call(&mut self, op: A::Op) -> (r: Result<CallId, MailboxClosed>)
        requires
            old(self).wf(),
            old(self).calls().len() < usize::MAX,
        ensures
            final(self).wf(),
            old(self).life() is Running ==> r == Ok::<CallId, MailboxClosed>(
                old(self).calls().len() as usize,
            ) && final(self).calls() == old(self).calls().push(
                (CallRecord {
                    op: Some(op),
                    exclusive: A::op_exclusive(op),
                    phase: CallPhase::Queued,
                    reply: None,
                }),
            ),
            !(old(self).life() is Running) ==> r == Err::<CallId, MailboxClosed>(MailboxClosed)
                && *final(self) == *old(self),
            final(self).state() == old(self).state(),
            final(self).life() == old(self).life(),
            final(self).served() == old(self).served(),
            final(self).running_shared() == old(self).running_shared(),
            final(self).running_exclusive() == old(self).running_exclusive(),
            final(self).strong() == old(self).strong(),
            forall|i: int|
                0 <= i < old(self).calls().len() ==> final(self).calls()[i] == old(self).calls()[i],
    {
        match self.life {
            Lifecycle::Running => {
                let excl = A::is_exclusive(&op);
                let id = self.calls.len();
                self.calls.push(
                    CallRecord { op: Some(op), exclusive: excl, phase: CallPhase::Queued, reply: None },
                );
                Ok(id)
            },
            _ => Err(MailboxClosed),
        }
    }

    /// Whether any call is still queued. Only a running mailbox can have one:
    /// closing fails the whole queue.
    pub open spec fn has_queued(self) -> bool {
        self.served() < self.calls().len()
    }

    /// The operation at the front of the queue.
    pub open spec fn front_op(self) -> A::Op
        recommends
            self.wf(),
            self.has_queued(),
    {
        self.calls()[self.served()].op->0
    }

    /// Whether the front of the queue is an exclusive operation.
    pub open spec fn front_exclusive(self) -> bool
        recommends
            self.has_queued(),
    {
        self.calls()[self.served()].exclusive
    }

    /// The readers/writer dispatch rule. The front call may start only if:
    /// an exclusive operation waits for everything in flight to finish, and
    /// a shared operation waits only for an in-flight exclusive one. Because
    /// dispatch is strictly FIFO, no shared operation ever starts while an
    /// exclusive one is queued ahead of it.
    pub open spec fn can_dispatch(self) -> bool {
        &&& self.has_queued()
        &&& if self.front_exclusive() {
            self.running_shared() == 0 && !self.running_exclusive()
        } else {
            !self.running_exclusive()
        }
    }

    /// Starts (and executes) the call at the front of the queue, if the
    /// discipline allows one to start. A dispatched exclusive operation
    /// observes the state in isolation and advances it by `apply_op`; a
    /// dispatched shared operation leaves the state untouched. Either way the
    /// reply — a function of the very state the operation observed, never of
    /// a half-applied one — is placed in the call's slot, and the operation
    /// stays in flight until the matching finish is reported.
    pub fn dispatch(&mut self) -> (r: Option<CallId>)
        requires
            old(self).wf(),
            old(self).can_dispatch() ==> A::op_enabled(old(self).state(), old(self).front_op()),
            old(self).can_dispatch() && !old(self).front_exclusive() ==> old(self).running_shared()
                < usize::MAX,
        ensures
            final(self).wf(),
            !old(self).can_dispatch() ==> r is None && *final(self) == *old(self),
            old(self).can_dispatch() ==> {
                &&& r == Some::<CallId>(old(self).served() as usize)
                &&& final(self).served() == old(self).served() + 1
                &&& final(self).calls().len() == old(self).calls().len()
                &&& final(self).calls()[old(self).served()].phase is Fulfilled
                &&& final(self).calls()[old(self).served()].reply == Some(
                    A::reply_op(old(self).state(), old(self).front_op()),
                )
                &&& final(self).calls()[old(self).served()].exclusive == old(self).front_exclusive()
                &&& forall|i: int|
                    0 <= i < old(self).calls().len() && i != old(self).served()
                        ==> final(self).calls()[i] == old(self).calls()[i]
                &&& if old(self).front_exclusive() {
                    final(self).state() == A::apply_op(old(self).state(), old(self).front_op())
                        && final(self).running_exclusive() && final(self).running_shared() == 0
                } else {
                    final(self).state() == old(self).state()
                        && final(self).running_shared() == old(self).running_shared() + 1
                        && final(self).running_exclusive() == old(self).running_exclusive()
                }
            },
            final(self).life() == old(self).life(),
            final(self).strong() == old(self).strong(),
    {
        if self.served >= self.calls.len() {
            return None;
        }
        let excl = self.calls[self.served].exclusive;
        let allowed = if excl {
            self.running_shared == 0 && !self.running_exclusive
        } else {
            !self.running_exclusive
        };
        if !allowed {
            return None;
        }
        let id = self.served;
        let op = self.calls[id].op.take().unwrap();
        let reply = if excl {
            let reply = self.state.handle_exclusive(op);
            self.running_exclusive = true;
            reply
        } else {
            let reply = self.state.handle_shared(op);
            self.running_shared = self.running_shared + 1;
            reply
        };
        self.calls[id].reply = Some(reply);
        self.calls[id].phase = CallPhase::Fulfilled;
        self.served = id + 1;
        Some(id)
    }

    /// Reports one in-flight shared operation finished, releasing its grant.
    pub fn finish_shared(&mut self)
        requires
            old(self).wf(),
            old(self).running_shared() > 0,
        ensures
            final(self).wf(),
            final(self).running_shared() == old(self).running_shared() - 1,
            final(self).state() == old(self).state(),
            final(self).life() == old(self).life(),
            final(self).calls() == old(self).calls(),
            final(self).served() == old(self).served(),
            final(self).running_exclusive() == old(self).running_exclusive(),
            final(self).strong() == old(self).strong(),
    {
        self.running_shared = self.running_shared - 1;
    }

    /// Reports the in-flight exclusive operation finished, releasing its
    /// isolation grant.
    pub fn finish_exclusive(&mut self)
        requires
            old(self).wf(),
            old(self).running_exclusive(),
        ensures
            final(self).wf(),
            !final(self).running_exclusive(),
            final(self).state() == old(self).state(),
            final(self).life() == old(self).life(),
            final(self).calls() == old(self).calls(),
            final(self).served() == old(self).served(),
            final(self).running_shared() == old(self).running_shared(),
            final(self).strong() == old(self).strong(),
    {
        self.running_exclusive = false;
    }

    /// What entering `Stopping` does to a running mailbox: no new calls are
    /// accepted, every call still queued fails (its slot is written exactly
    /// once, with failure), in-flight grants and the state itself are left to
    /// drain, and teardown has not happened yet.
    pub open spec fn stopped_from(post: Mailbox<A>, pre: Mailbox<A>) -> bool {
        &&& post.life() is Stopping
        &&& post.state() == pre.state()
        &&& post.calls().len() == pre.calls().len()
        &&& post.served() == post.calls().len()
        &&& forall|i: int| 0 <= i < pre.served() ==> post.calls()[i] == pre.calls()[i]
        &&& forall|i: int|
            pre.served() <= i < pre.calls().len() ==> (#[trigger] post.calls()[i]).phase is Failed
                && post.calls()[i].op == pre.calls()[i].op && post.calls()[i].exclusive
                == pre.calls()[i].exclusive && post.calls()[i].reply == pre.calls()[i].reply
        &&& post.running_shared() == pre.running_shared()
        &&& post.running_exclusive() == pre.running_exclusive()
        &&& post.teardown_done() == pre.teardown_done()
    }

    /// Begins shutdown. A running mailbox moves to `Stopping`: it stops
    /// accepting, fails everything still queued, and waits for in-flight
    /// operations to drain (see [`Mailbox::try_terminate`]). On a mailbox
    /// already stopping or terminated this changes nothing.
    pub fn request_stop(&mut self)
        requires
            old(self).wf(),
        ensures
            final(self).wf(),
            !(final(self).life() is Running),
            final(self).strong() == old(self).strong(),
            old(self).life() is Running ==> Self::stopped_from(*final(self), *old(self)),
            !(old(self).life() is Running) ==> *final(self) == *old(self),
    {
        match self.life {
            Lifecycle::Running => {
                self.life = Lifecycle::Stopping;
                let mut i = self.served;
                while i < self.calls.len()
                    invariant
                        old(self).served() <= i as int <= self.calls@.len(),
                        self.calls@.len() == old(self).calls().len(),
                        self.state == old(self).state(),
                        self.life == Lifecycle::Stopping,
                        self.served == old(self).served(),
                        self.running_shared == old(self).running_shared(),
                        self.running_exclusive == old(self).running_exclusive(),
                        self.strong_count == old(self).strong(),
                        self.teardown_done == old(self).teardown_done(),
                        old(self).wf(),
                        forall|j: int|
                            0 <= j < self.calls@.len() && !(old(self).served() <= j < i as int)
                                ==> self.calls@[j] == old(self).calls()[j],
                        forall|j: int|
                            old(self).served() <= j < i as int ==> (#[trigger] self.calls@[j]).phase
                                is Failed && self.calls@[j].op == old(self).calls()[j].op
                                && self.calls@[j].exclusive == old(self).calls()[j].exclusive
                                && self.calls@[j].reply == old(self).calls()[j].reply,
                    decreases self.calls@.len() - i,
                {
                    self.calls[i].phase = CallPhase::Failed;
                    i = i + 1;
                }
                self.served = self.calls.len();
            },
            _ => {},
        }
    }

    /// Completes shutdown once a stopping mailbox has drained: runs the
    /// teardown hook (exactly once — only this function sets it, only from a
    /// stopping mailbox, and `Terminated` is final) and reaches `Terminated`.
    /// Returns whether the mailbox is terminated now.
    pub fn try_terminate(&mut self) -> (done: bool)
        requires
            old(self).wf(),
        ensures
            final(self).wf(),
            done == (final(self).life() is Terminated),
            final(self).strong() == old(self).strong(),
            (old(self).life() is Stopping && old(self).running_shared() == 0 && !old(self).running_exclusive()) ==> final(self).life() is Terminated && final(self).state()
                == A::stop_spec(old(self).state()) && final(self).calls() == old(self).calls()
                && final(self).served() == old(self).served(),
            !(old(self).life() is Stopping && old(self).running_shared() == 0 && !old(self).running_exclusive()) ==> *final(self) == *old(self),
    {
        match self.life {
            Lifecycle::Stopping => {
                if self.running_shared == 0 && !self.running_exclusive {
                    self.state.on_stop();
                    self.teardown_done = true;
                    self.life = Lifecycle::Terminated;
                    true
                } else {
                    false
                }
            },
            Lifecycle::Terminated => true,
            Lifecycle::Running => false,
        }
    }

    /// Clones a held strong address: one more unit of ownership is out.
    /// Nothing else changes; in particular the actor is already alive and
    /// stays so.
    pub fn clone_strong(&mut self, addr: &StrongAddr) -> (r: StrongAddr)
        requires
            old(self).wf(),
            old(self).strong() >= 1,
            old(self).strong() < usize::MAX,
        ensures
            final(self).wf(),
            final(self).strong() == old(self).strong() + 1,
            final(self).state() == old(self).state(),
            final(self).life() == old(self).life(),
            final(self).calls() == old(self).calls(),
            final(self).served() == old(self).served(),
            final(self).running_shared() == old(self).running_shared(),
            final(self).running_exclusive() == old(self).running_exclusive(),
            final(self).teardown_done() == old(self).teardown_done(),
    {
        let _ = addr;
        self.strong_count = self.strong_count + 1;
        StrongAddr::make()
    }

    /// Gives a strong address back. When the last one goes, shutdown begins
    /// by itself, exactly as in [`Mailbox::request_stop`] — and because the
    /// count can never rise from zero again (see [`lemma_weak_cannot_revive`]),
    /// that decision is final.
    pub fn drop_strong(&mut self, addr: StrongAddr)
        requires
            old(self).wf(),
            old(self).strong() >= 1,
        ensures
            final(self).wf(),
            final(self).strong() == old(self).strong() - 1,
            old(self).life() is Terminated ==> final(self).life() is Terminated,
            old(self).strong() > 1 ==> final(self).state() == old(self).state() && final(self).life() == old(self).life() && final(self).calls() == old(self).calls() && final(self).served() == old(self).served() && final(self).running_shared() == old(self).running_shared() && final(self).running_exclusive() == old(self).running_exclusive()
                && final(self).teardown_done() == old(self).teardown_done(),
            old(self).strong() == 1 && old(self).life() is Running ==> Self::stopped_from(
                *final(self),
                *old(self),
            ),
            old(self).strong() == 1 && !(old(self).life() is Running) ==> final(self).state()
                == old(self).state() && final(self).life() == old(self).life() && final(self).calls() == old(self).calls() && final(self).served() == old(self).served() && final(self).running_shared() == old(self).running_shared() && final(self).running_exclusive()
                == old(self).running_exclusive() && final(self).teardown_done() == old(self).teardown_done(),
    {
        let _ = addr;
        if self.strong_count == 1 {
            self.request_stop();
            self.strong_count = 0;
        } else {
            self.strong_count = self.strong_count - 1;
        }
    }

    /// Whether presenting a weak address right now yields a strong one:
    /// exactly when the mailbox has not terminated and at least one strong
    /// address still exists at the moment of the call.
    pub open spec fn upgrade_succeeds(self) -> bool {
        self.strong() > 0 && !(self.life() is Terminated)
    }

    /// Tries to turn a weak address into a strong one. Succeeds exactly under
    /// [`Mailbox::upgrade_succeeds`]; absence means the actor is gone, a
    /// normal outcome rather than an error. The check and the count increment
    /// are one step, so success never races past the death of the last
    /// strong address: once the count has hit zero, every later upgrade
    /// returns `None`.
    pub fn upgrade(&mut self, addr: &WeakAddr) -> (r: Option<StrongAddr>)
        requires
            old(self).wf(),
            old(self).strong() < usize::MAX,
        ensures
            final(self).wf(),
            r is Some <==> old(self).upgrade_succeeds(),
            old(self).upgrade_succeeds() ==> final(self).strong() == old(self).strong() + 1,
            !old(self).upgrade_succeeds() ==> *final(self) == *old(self),
            final(self).state() == old(self).state(),
            final(self).life() == old(self).life(),
            final(self).calls() == old(self).calls(),
            final(self).served() == old(self).served(),
            final(self).running_shared() == old(self).running_shared(),
            final(self).running_exclusive() == old(self).running_exclusive(),
            final(self).teardown_done() == old(self).teardown_done(),
    {
        let _ = addr;
        if self.strong_count > 0 && self.life != Lifecycle::Terminated {
            self.strong_count = self.strong_count + 1;
            Some(StrongAddr::make())
        } else {
            None
        }
    }

    /// Polls a termination future against this mailbox. The future becomes
    /// ready exactly when the mailbox has terminated — immediately for a
    /// future made after the fact — and any number of futures may watch the
    /// same mailbox. Each future resolves at most once: resolving consumes it.
    pub fn poll_termination(&self, fut: &mut TerminationFuture) -> (ready: bool)
        requires
            !old(fut).resolved(),
        ensures
            ready == (self.life() is Terminated),
            final(fut).resolved() == ready,
    {
        match self.life {
            Lifecycle::Terminated => {
                fut.resolved = true;
                true
            },
            _ => false,
        }
    }

    /// Whether the call's outcome is in: its operation ran (reply waiting) or
    /// the mailbox closed on it. Queued calls on a running mailbox are not
    /// ready yet; nothing is ready twice.
    pub fn reply_ready(&self, id: CallId) -> (b: bool)
        requires
            self.wf(),
            id < self.calls().len(),
        ensures
            b == (self.calls()[id as int].phase is Fulfilled || self.calls()[id as int].phase
                is Failed),
    {
        match self.calls[id].phase {
            CallPhase::Fulfilled => true,
            CallPhase::Failed => true,
            _ => false,
        }
    }

    /// Resolves a call's future: takes the single outcome out of the slot —
    /// the reply if the operation ran, `MailboxClosed` if the mailbox closed
    /// first. A slot holds exactly one outcome and this consumes it, so no
    /// call ever resolves twice.
    pub fn take_reply(&mut self, id: CallId) -> (r: Result<A::Reply, MailboxClosed>)
        requires
            old(self).wf(),
            id < old(self).calls().len(),
            old(self).calls()[id as int].phase is Fulfilled || old(self).calls()[id as int].phase
                is Failed,
        ensures
            final(self).wf(),
            old(self).calls()[id as int].phase is Fulfilled ==> r == Ok::<A::Reply, MailboxClosed>(
                old(self).calls()[id as int].reply->0,
            ),
            old(self).calls()[id as int].phase is Failed ==> r == Err::<A::Reply, MailboxClosed>(
                MailboxClosed,
            ),
            final(self).calls()[id as int].phase is Resolved,
            final(self).calls().len() == old(self).calls().len(),
            forall|i: int|
                0 <= i < old(self).calls().len() && i != id ==> final(self).calls()[i] == old(self).calls()[i],
            final(self).state() == old(self).state(),
            final(self).life() == old(self).life(),
            final(self).served() == old(self).served(),
            final(self).running_shared() == old(self).running_shared(),
            final(self).running_exclusive() == old(self).running_exclusive(),
            final(self).strong() == old(self).strong(),
            final(self).teardown_done() == old(self).teardown_done(),
    {
        let ph = self.calls[id].phase;
        match ph {
            CallPhase::Fulfilled => {
                let v = self.calls[id].reply.take().unwrap();
                self.calls[id].phase = CallPhase::Resolved;
                Ok(v)
            },
            CallPhase::Failed => {
                self.calls[id].phase = CallPhase::Resolved;
                Err(MailboxClosed)
            },
            _ => {
                assert(false);
                Err(MailboxClosed)
            },
        }
    }
}

impl<A: Actor> Mailbox<A> {
    /// The operations still queued, front first.
    pub open spec fn queued_ops(self) -> Seq<A::Op> {
        Seq::new(
            (self.calls().len() - self.served()) as nat,
            |i: int| self.calls()[self.served() + i].op->0,
        )
    }

    /// The state the actor reaches when `ops` run serially in the given
    /// order: each exclusive operation advances the state, each shared one
    /// only reads it.
    pub open spec fn apply_all(s: A, ops: Seq<A::Op>) -> A
        decreases ops.len(),
    {
        if ops.len() == 0 {
            s
        } else {
            let next = if A::op_exclusive(ops[0]) {
                A::apply_op(s, ops[0])
            } else {
                s
            };
            Self::apply_all(next, ops.skip(1))
        }
    }

    /// Whether each of `ops`, run serially in the given order from `s`, is
    /// dispatched in a state that enables it.
    pub open spec fn all_enabled(s: A, ops: Seq<A::Op>) -> bool
        decreases ops.len(),
    {
        ops.len() == 0 || {
            &&& A::op_enabled(s, ops[0])
            &&& Self::all_enabled(
                if A::op_exclusive(ops[0]) {
                    A::apply_op(s, ops[0])
                } else {
                    s
                },
                ops.skip(1),
            )
        }
    }

    /// A sequential driver: dispatches the queue front to back, reporting
    /// each operation finished before the next starts, until nothing is
    /// queued. Every queued call ends fulfilled, and the state lands exactly
    /// on the serial fold of the queued operations — dispatch loses no
    /// operation and invents none.
    pub fn run_until_idle(&mut self)
        requires
            old(self).wf(),
            old(self).running_shared() == 0,
            !old(self).running_exclusive(),
            Self::all_enabled(old(self).state(), old(self).queued_ops()),
        ensures
            final(self).wf(),
            final(self).served() == final(self).calls().len(),
            final(self).calls().len() == old(self).calls().len(),
            final(self).state() == Self::apply_all(old(self).state(), old(self).queued_ops()),
            final(self).running_shared() == 0,
            !final(self).running_exclusive(),
            final(self).life() == old(self).life(),
            final(self).strong() == old(self).strong(),
            forall|i: int|
                0 <= i < old(self).served() ==> final(self).calls()[i] == old(self).calls()[i],
            forall|i: int|
                old(self).served() <= i < old(self).calls().len()
                    ==> (#[trigger] final(self).calls()[i]).phase is Fulfilled,
    {
        loop
            invariant
                self.wf(),
                self.running_shared() == 0,
                !self.running_exclusive(),
                self.calls@.len() == old(self).calls().len(),
                old(self).served() <= self.served() <= self.calls@.len(),
                self.life() == old(self).life(),
                self.strong() == old(self).strong(),
                Self::all_enabled(self.state(), self.queued_ops()),
                Self::apply_all(self.state(), self.queued_ops()) == Self::apply_all(
                    old(self).state(),
                    old(self).queued_ops(),
                ),
                forall|i: int|
                    0 <= i < old(self).served() ==> self.calls@[i] == old(self).calls()[i],
                forall|i: int|
                    old(self).served() <= i < self.served()
                        ==> (#[trigger] self.calls@[i]).phase is Fulfilled,
            ensures
                self.served() == self.calls@.len(),
            decreases self.calls@.len() - self.served(),
        {
            if self.served >= self.calls.len() {
                break;
            }
            let ghost pre = *self;
            proof {
                assert(pre.queued_ops().len() > 0);
                assert(pre.queued_ops()[0] == pre.front_op());
            }
            let excl = self.calls[self.served].exclusive;
            let _ = self.dispatch();
            if excl {
                self.finish_exclusive();
            } else {
                self.finish_shared();
            }
            proof {
                assert(self.queued_ops() =~= pre.queued_ops().skip(1));
            }
        }
        proof {
            assert(self.queued_ops().len() == 0);
        }
    }
}

/// Mutual exclusion, and no torn reads: while an exclusive operation is in
/// flight, no shared operation is in flight and nothing further — exclusive
/// or shared — can be dispatched on this mailbox. So no two exclusive
/// operations ever overlap, and no shared operation ever observes a state an
/// exclusive operation is in the middle of producing.
pub proof fn lemma_exclusive_isolation<A: Actor>(mb: Mailbox<A>)
    requires
        mb.wf(),
        mb.running_exclusive(),
    ensures
        mb.running_shared() == 0,
        !mb.can_dispatch(),
{
}

/// Reader concurrency: while no exclusive operation is in flight and the
/// front of the queue is shared, dispatch is allowed no matter how many
/// shared operations are already in flight — readers are never serialized
/// against each other.
pub proof fn lemma_reader_concurrency<A: Actor>(mb: Mailbox<A>)
    requires
        mb.wf(),
        !mb.running_exclusive(),
        mb.has_queued(),
        !mb.front_exclusive(),
    ensures
        mb.can_dispatch(),
{
}

/// Weak reference safety: once the strong count stands at zero the actor can
/// never be running again, and an upgrade can never succeed. No operation
/// raises the count from zero — cloning and dropping demand a held strong
/// address, and upgrade adds one only when the count is still positive — so
/// after the last strong address is dropped, every later upgrade returns
/// absence, deterministically.
pub proof fn lemma_weak_cannot_revive<A: Actor>(mb: Mailbox<A>)
    requires
        mb.wf(),
        mb.strong() == 0,
    ensures
        !mb.upgrade_succeeds(),
        !(mb.life() is Running),
{
}

/// Termination idempotence: a termination future is ready exactly when the
/// mailbox has terminated, `Terminated` is final (every operation's contract
/// keeps it), and each future resolves at most once — so futures awaited
/// before and after the fact each resolve, exactly once each, with no
/// double-fire.
pub proof fn lemma_termination_latched<A: Actor>(mb: Mailbox<A>)
    requires
        mb.wf(),
        mb.life() is Terminated,
    ensures
        mb.served() == mb.calls().len(),
        mb.running_shared() == 0,
        !mb.running_exclusive(),
        mb.teardown_done(),
{
}

} // verus!
