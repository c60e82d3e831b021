use actor_core::actor::MailboxClosed;
use actor_core::counter::{CounterOp, VisitCounter};
use actor_core::mailbox::{CallId, Mailbox, TerminationFuture};

/// Drives one already-queued call to completion: dispatch it, report it
/// finished, and take its reply.
fn complete(mb: &mut Mailbox<VisitCounter>, id: CallId, exclusive: bool) -> Result<i32, MailboxClosed> {
    let dispatched = mb.dispatch();
    assert_eq!(dispatched, Some(id));
    if exclusive {
        mb.finish_exclusive();
    } else {
        mb.finish_shared();
    }
    mb.take_reply(id)
}

#[test]
fn three_visits_reply_in_order() {
    let (mut mb, strong) = Mailbox::spawn(VisitCounter::new(0));
    for expected in 1..4 {
        let id = mb.call(CounterOp::Visit).unwrap();
        assert_eq!(complete(&mut mb, id, true), Ok(expected));
    }
    mb.drop_strong(strong);
}

#[test]
fn hundred_interleaved_visits_lose_none() {
    let (mut mb, strong) = Mailbox::spawn(VisitCounter::new(0));
    // Ten callers of ten calls each, arrival orders interleaved.
    let mut ids = Vec::new();
    for round in 0..10 {
        for caller in 0..10 {
            let _ = (round, caller);
            ids.push(mb.call(CounterOp::Visit).unwrap());
        }
    }
    // The driver serializes the exclusive operations; none may be lost.
    loop {
        match mb.dispatch() {
            Some(_) => mb.finish_exclusive(),
            None => break,
        }
    }
    for id in ids {
        assert!(mb.take_reply(id).is_ok());
    }
    let id = mb.call(CounterOp::GetCount).unwrap();
    assert_eq!(complete(&mut mb, id, false), Ok(100));
    mb.drop_strong(strong);
}

#[test]
fn readers_overlap_and_agree() {
    let (mut mb, strong) = Mailbox::spawn(VisitCounter::new(7));
    let a = mb.call(CounterOp::GetCount).unwrap();
    let b = mb.call(CounterOp::GetCount).unwrap();
    let c = mb.call(CounterOp::GetCount).unwrap();
    // All three shared operations are in flight at once: each dispatch
    // succeeds while the previous readers have not finished.
    assert_eq!(mb.dispatch(), Some(a));
    assert_eq!(mb.dispatch(), Some(b));
    assert_eq!(mb.dispatch(), Some(c));
    assert_eq!(mb.take_reply(a), Ok(7));
    assert_eq!(mb.take_reply(b), Ok(7));
    assert_eq!(mb.take_reply(c), Ok(7));
    mb.finish_shared();
    mb.finish_shared();
    mb.finish_shared();
    mb.drop_strong(strong);
}

#[test]
fn writer_in_flight_blocks_everything() {
    let (mut mb, strong) = Mailbox::spawn(VisitCounter::new(0));
    let w = mb.call(CounterOp::Visit).unwrap();
    assert_eq!(mb.dispatch(), Some(w));
    // While the exclusive operation is in flight nothing else starts.
    let r = mb.call(CounterOp::GetCount).unwrap();
    assert_eq!(mb.dispatch(), None);
    mb.finish_exclusive();
    assert_eq!(mb.dispatch(), Some(r));
    mb.finish_shared();
    // The reader saw the fully applied increment, never a torn state.
    assert_eq!(mb.take_reply(w), Ok(1));
    assert_eq!(mb.take_reply(r), Ok(1));
    mb.drop_strong(strong);
}

#[test]
fn outstanding_readers_block_writer() {
    let (mut mb, strong) = Mailbox::spawn(VisitCounter::new(3));
    let a = mb.call(CounterOp::GetCount).unwrap();
    let b = mb.call(CounterOp::GetCount).unwrap();
    assert_eq!(mb.dispatch(), Some(a));
    assert_eq!(mb.dispatch(), Some(b));
    let w = mb.call(CounterOp::Visit).unwrap();
    // The writer waits for every reader already in flight.
    assert_eq!(mb.dispatch(), None);
    mb.finish_shared();
    assert_eq!(mb.dispatch(), None);
    mb.finish_shared();
    assert_eq!(mb.dispatch(), Some(w));
    mb.finish_exclusive();
    assert_eq!(mb.take_reply(w), Ok(4));
    assert_eq!(mb.take_reply(a), Ok(3));
    assert_eq!(mb.take_reply(b), Ok(3));
    mb.drop_strong(strong);
}

#[test]
fn dispatch_is_fifo() {
    let (mut mb, strong) = Mailbox::spawn(VisitCounter::new(0));
    let first = mb.call(CounterOp::Visit).unwrap();
    let second = mb.call(CounterOp::GetCount).unwrap();
    let third = mb.call(CounterOp::Visit).unwrap();
    // The reader queued behind the first writer does not start early.
    assert_eq!(mb.dispatch(), Some(first));
    mb.finish_exclusive();
    assert_eq!(mb.dispatch(), Some(second));
    mb.finish_shared();
    assert_eq!(mb.dispatch(), Some(third));
    mb.finish_exclusive();
    assert_eq!(mb.take_reply(first), Ok(1));
    assert_eq!(mb.take_reply(second), Ok(1));
    assert_eq!(mb.take_reply(third), Ok(2));
    mb.drop_strong(strong);
}

#[test]
fn run_until_idle_serves_fifo_and_loses_nothing() {
    let (mut mb, strong) = Mailbox::spawn(VisitCounter::new(0));
    let mut ids = Vec::new();
    for _ in 0..50 {
        ids.push(mb.call(CounterOp::Visit).unwrap());
    }
    mb.run_until_idle();
    for (k, id) in ids.into_iter().enumerate() {
        assert_eq!(mb.take_reply(id), Ok(k as i32 + 1));
    }
    let id = mb.call(CounterOp::GetCount).unwrap();
    mb.run_until_idle();
    assert_eq!(mb.take_reply(id), Ok(50));
    mb.drop_strong(strong);
}

#[test]
fn calls_after_stop_are_rejected() {
    let (mut mb, strong) = Mailbox::spawn(VisitCounter::new(0));
    mb.request_stop();
    assert_eq!(mb.call(CounterOp::Visit), Err(MailboxClosed));
    assert!(mb.try_terminate());
    assert_eq!(mb.call(CounterOp::GetCount), Err(MailboxClosed));
    mb.drop_strong(strong);
}

#[test]
fn queued_calls_fail_when_mailbox_closes() {
    let (mut mb, strong) = Mailbox::spawn(VisitCounter::new(0));
    let id = mb.call(CounterOp::Visit).unwrap();
    mb.request_stop();
    // The never-started call resolves to failure rather than hanging.
    assert!(mb.reply_ready(id));
    assert_eq!(mb.take_reply(id), Err(MailboxClosed));
    mb.drop_strong(strong);
}

#[test]
fn in_flight_call_drains_before_termination() {
    let (mut mb, strong) = Mailbox::spawn(VisitCounter::new(0));
    let id = mb.call(CounterOp::Visit).unwrap();
    assert_eq!(mb.dispatch(), Some(id));
    mb.request_stop();
    // Once started, the operation runs to completion before teardown.
    assert!(!mb.try_terminate());
    mb.finish_exclusive();
    assert!(mb.try_terminate());
    assert_eq!(mb.take_reply(id), Ok(1));
    mb.drop_strong(strong);
}

#[test]
fn upgrade_fails_forever_after_last_strong_drop() {
    let (mut mb, strong) = Mailbox::spawn(VisitCounter::new(0));
    let weak = strong.downgrade();
    let second = mb.upgrade(&weak).expect("actor is alive");
    mb.drop_strong(second);
    mb.drop_strong(strong);
    // The last strong address is gone: every later upgrade returns absence.
    assert!(mb.upgrade(&weak).is_none());
    assert!(mb.try_terminate());
    assert!(mb.upgrade(&weak).is_none());
    assert!(mb.upgrade(&weak).is_none());
}

#[test]
fn clone_keeps_actor_alive() {
    let (mut mb, strong) = Mailbox::spawn(VisitCounter::new(0));
    let second = mb.clone_strong(&strong);
    mb.drop_strong(strong);
    // One strong address remains, so the mailbox still accepts calls.
    let id = mb.call(CounterOp::Visit).unwrap();
    assert_eq!(complete(&mut mb, id, true), Ok(1));
    mb.drop_strong(second);
    assert_eq!(mb.call(CounterOp::Visit), Err(MailboxClosed));
}

#[test]
fn reply_is_ready_only_after_dispatch() {
    let (mut mb, strong) = Mailbox::spawn(VisitCounter::new(0));
    let id = mb.call(CounterOp::Visit).unwrap();
    assert!(!mb.reply_ready(id));
    assert_eq!(mb.dispatch(), Some(id));
    assert!(mb.reply_ready(id));
    mb.finish_exclusive();
    assert_eq!(mb.take_reply(id), Ok(1));
    mb.drop_strong(strong);
}

#[test]
fn dropping_last_strong_while_stopping_stays_closed() {
    let (mut mb, strong) = Mailbox::spawn(VisitCounter::new(0));
    let weak = strong.downgrade();
    mb.request_stop();
    // Not yet terminated: an upgrade still succeeds while stopping.
    let extra = mb.upgrade(&weak).unwrap();
    mb.drop_strong(extra);
    mb.drop_strong(strong);
    assert!(mb.upgrade(&weak).is_none());
    assert!(mb.try_terminate());
    assert!(mb.upgrade(&weak).is_none());
}

#[test]
fn termination_futures_resolve_once_each() {
    let (mut mb, strong) = Mailbox::spawn(VisitCounter::new(0));
    let mut early = TerminationFuture::new();
    assert!(!mb.poll_termination(&mut early));
    mb.request_stop();
    assert!(!mb.poll_termination(&mut early));
    assert!(mb.try_terminate());
    // A future taken out before termination resolves now ...
    assert!(mb.poll_termination(&mut early));
    // ... and one made after the fact resolves immediately; both exactly once.
    let mut late = TerminationFuture::new();
    assert!(mb.poll_termination(&mut late));
    mb.drop_strong(strong);
}
