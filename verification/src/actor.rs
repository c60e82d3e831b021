//! The actor behavior trait, address handles, and the mailbox error.

use vstd::prelude::*;

verus! {

/// The one error the mailbox ever produces: a call reached a mailbox that has
/// already begun stopping or has terminated.
#[derive(Clone, Copy, Debug, PartialEq, Eq, Structural)]
pub struct MailboxClosed;

/// A non-owning handle to a mailbox.
///
/// A weak address never keeps the actor alive; turning it back into a usable
/// handle goes through `Mailbox::upgrade`, which fails once the actor is gone.
/// Copying a weak address has no effect on ownership.
///
/// The handle itself carries no capability: whether it can still be upgraded
/// is decided entirely by the mailbox it is presented to.
#[derive(Clone, Copy, Debug)]
pub struct WeakAddr;

/// One unit of strong ownership of a mailbox.
///
/// The mailbox counts the strong addresses that exist for it; the actor stays
/// alive as long as at least one does. A strong address is deliberately not
/// copyable: new ones come only from `Mailbox::spawn`, `Mailbox::clone_strong`
/// and `Mailbox::upgrade`, and each is given back through
/// `Mailbox::drop_strong`, so the count tracks the handles that are out.
#[derive(Debug)]
pub struct StrongAddr {
    _marker: (),
}

impl StrongAddr {
    pub(crate) fn make() -> StrongAddr {
        StrongAddr { _marker: () }
    }

    /// Produces a non-owning reference to the same actor; the actor's
    /// lifetime is unaffected.
    pub fn downgrade(&self) -> WeakAddr {
        WeakAddr
    }
}

/// Behavior of one actor: its operation set, split statically into exclusive
/// (mutating) and shared (read-only) operations, and its lifecycle hooks.
///
/// The classification of an operation is fixed at its definition
/// (`op_exclusive`), never per call. `apply_op` and `reply_op` are the
/// mathematical meaning of an operation: the state it leaves behind and the
/// reply it produces, both functions of the state the operation observes.
pub trait Actor: Sized {
    /// The operation (message) type.
    type Op;

    /// The reply type delivered back through the call bridge.
    type Reply;

    /// Whether the operation mutates the state. Exclusive operations are
    /// dispatched in full isolation; shared ones may overlap with each other.
    spec fn op_exclusive(op: Self::Op) -> bool;

    /// States in which the operation may be dispatched without fault
    /// (for instance: a counter increment needs headroom).
    spec fn op_enabled(pre: Self, op: Self::Op) -> bool;

    /// The state after an exclusive operation runs against `pre`.
    spec fn apply_op(pre: Self, op: Self::Op) -> Self;

    /// The reply an operation produces when it observes state `pre`.
    spec fn reply_op(pre: Self, op: Self::Op) -> Self::Reply;

    /// The state after the start hook runs against `pre`.
    spec fn start_spec(pre: Self, addr: WeakAddr) -> Self;

    /// Whether the start hook succeeds from `pre`. Failure is fatal to the
    /// actor alone: the mailbox goes straight to terminated.
    spec fn start_ok(pre: Self, addr: WeakAddr) -> bool;

    /// The state after the teardown hook runs against `pre`.
    spec fn stop_spec(pre: Self) -> Self;

    /// Classifies an operation; agrees with `op_exclusive`.
    fn is_exclusive(op: &Self::Op) -> (b: bool)
        ensures
            b == Self::op_exclusive(*op),
    ;

    /// Runs one exclusive operation. The mailbox grants it an isolated view:
    /// no other operation observes the state while this runs.
    fn handle_exclusive(&mut self, op: Self::Op) -> (r: Self::Reply)
        requires
            Self::op_exclusive(op),
            Self::op_enabled(*old(self), op),
        ensures
            *final(self) == Self::apply_op(*old(self), op),
            r == Self::reply_op(*old(self), op),
    ;

    /// Runs one shared operation. It takes the state read-only, so it can
    /// never change it, and its reply is a function of the observed state.
    fn handle_shared(&self, op: Self::Op) -> (r: Self::Reply)
        requires
            !Self::op_exclusive(op),
            Self::op_enabled(*self, op),
        ensures
            r == Self::reply_op(*self, op),
    ;

    /// The start hook. It runs inside `Mailbox::spawn`, before any external
    /// operation is accepted, and receives a weak address to the actor's own
    /// mailbox so the actor can reference itself without keeping itself alive.
    fn on_start(&mut self, addr: WeakAddr) -> (ok: bool)
        ensures
            *final(self) == Self::start_spec(*old(self), addr),
            ok == Self::start_ok(*old(self), addr),
    ;

    /// The teardown hook; the mailbox runs it exactly once, after the queue
    /// has drained, just before the actor reaches terminated.
    fn on_stop(&mut self)
        ensures
            *final(self) == Self::stop_spec(*old(self)),
    ;
}

} // verus!
