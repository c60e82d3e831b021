//! A visit counter actor: one mutating operation and one read-only operation.

use vstd::prelude::*;

use crate::actor::{Actor, WeakAddr};
use crate::mailbox::Mailbox;

verus! {

/// An actor holding a single visit count.
#[derive(Clone, Copy, Debug, PartialEq, Eq, Structural)]
pub struct VisitCounter {
    pub visit_count: i32,
}

/// The counter's operations. `Visit` takes the state mutably, so it is
/// exclusive; `GetCount` only reads, so it is shared.
#[derive(Clone, Copy, Debug, PartialEq, Eq, Structural)]
pub enum CounterOp {
    Visit,
    GetCount,
}

impl VisitCounter {
    pub fn new(visit_count: i32) -> (r: VisitCounter)
        ensures
            r.visit_count == visit_count,
    {
        VisitCounter { visit_count }
    }

    /// Increments and returns the visit count. Because this takes the state
    /// mutably, the mailbox handles only one such call at a time.
    pub fn visit(&mut self) -> (r: i32)
        requires
            old(self).visit_count < i32::MAX,
        ensures
            final(self).visit_count == old(self).visit_count + 1,
            r == final(self).visit_count,
    {
        self.visit_count = self.visit_count + 1;
        self.visit_count
    }

    /// Returns the visit count unmodified. Because this takes the state
    /// read-only, the mailbox may handle many such calls concurrently.
    pub fn get_count(&self) -> (r: i32)
        ensures
            r == self.visit_count,
    {
        self.visit_count
    }

    /// No lost updates: a queue of visit operations, run serially in any
    /// order under the mailbox's exclusion discipline (the fold
    /// `Mailbox::apply_all`, which is what `Mailbox::run_until_idle`
    /// guarantees the state lands on), is enabled throughout and moves the
    /// count up by exactly the number of visits — none is lost, none is
    /// applied twice.
    pub proof fn lemma_no_lost_updates(s: VisitCounter, ops: Seq<CounterOp>)
        requires
            forall|i: int| 0 <= i < ops.len() ==> ops[i] == CounterOp::Visit,
            s.visit_count + ops.len() <= i32::MAX,
        ensures
            Mailbox::<VisitCounter>::all_enabled(s, ops),
            Mailbox::<VisitCounter>::apply_all(s, ops).visit_count == s.visit_count + ops.len(),
        decreases ops.len(),
    {
        if ops.len() > 0 {
            Self::lemma_no_lost_updates(Self::apply_op(s, CounterOp::Visit), ops.skip(1));
        }
    }
}

impl Actor for VisitCounter {
    type Op = CounterOp;

    type Reply = i32;

    open spec fn op_exclusive(op: CounterOp) -> bool {
        op is Visit
    }

    open spec fn op_enabled(pre: VisitCounter, op: CounterOp) -> bool {
        op is Visit ==> pre.visit_count < i32::MAX
    }

    open spec fn apply_op(pre: VisitCounter, op: CounterOp) -> VisitCounter {
        match op {
            CounterOp::Visit => VisitCounter { visit_count: (pre.visit_count + 1) as i32 },
            CounterOp::GetCount => pre,
        }
    }

    open spec fn reply_op(pre: VisitCounter, op: CounterOp) -> i32 {
        match op {
            CounterOp::Visit => (pre.visit_count + 1) as i32,
            CounterOp::GetCount => pre.visit_count,
        }
    }

    open spec fn start_spec(pre: VisitCounter, addr: WeakAddr) -> VisitCounter {
        pre
    }

    open spec fn start_ok(pre: VisitCounter, addr: WeakAddr) -> bool {
        true
    }

    open spec fn stop_spec(pre: VisitCounter) -> VisitCounter {
        pre
    }

    fn is_exclusive(op: &CounterOp) -> (b: bool) {
        match op {
            CounterOp::Visit => true,
            CounterOp::GetCount => false,
        }
    }

    fn handle_exclusive(&mut self, op: CounterOp) -> (r: i32) {
        self.visit()
    }

    fn handle_shared(&self, op: CounterOp) -> (r: i32) {
        self.get_count()
    }

    fn on_start(&mut self, addr: WeakAddr) -> (ok: bool) {
        true
    }

    fn on_stop(&mut self) {
    }
}

} // verus!
