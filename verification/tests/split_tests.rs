use std::task::Context;

use futures::task::noop_waker;
use tcp_relay::guard::Guard;
use tcp_relay::split::{split, HalfStep, LockPoll, Operation, Side};

/// A connection that refuses to be entered while it is in use.
struct Exclusive {
    busy: bool,
    reads: u32,
    writes: u32,
    value: u32,
}

impl Exclusive {
    fn idle() -> Exclusive {
        Exclusive { busy: false, reads: 0, writes: 0, value: 0 }
    }

    fn enter(&mut self) {
        assert!(!self.busy, "the connection was entered while in use");
        self.busy = true;
    }

    fn leave(&mut self) {
        assert!(self.busy);
        self.busy = false;
    }
}

#[test]
fn split_gives_two_idle_halves() {
    let (r, w) = split(7u32);
    assert!(!r.is_holding());
    assert!(!w.is_holding());
}

#[test]
fn read_half_takes_a_free_lock_and_reads() {
    let waker = noop_waker();
    let mut cx = Context::from_waker(&waker);
    let (mut r, _w) = split(7u32);
    assert_eq!(r.poll_read(&mut cx), HalfStep::Perform(Operation::Read));
    assert!(r.is_holding());
    assert_eq!(*r.connection_mut(), 7);
    r.release();
    assert!(!r.is_holding());
}

#[test]
fn write_half_asks_for_each_of_its_operations() {
    let waker = noop_waker();
    let mut cx = Context::from_waker(&waker);
    let (_r, mut w) = split(7u32);
    assert_eq!(w.poll_write(&mut cx), HalfStep::Perform(Operation::Write));
    w.release();
    assert_eq!(w.poll_flush(&mut cx), HalfStep::Perform(Operation::Flush));
    w.release();
    assert_eq!(w.poll_shutdown(&mut cx), HalfStep::Perform(Operation::Shutdown));
    assert!(w.is_holding());
    w.release();
    assert!(!w.is_holding());
}

#[test]
fn both_halves_reach_the_same_connection() {
    let waker = noop_waker();
    let mut cx = Context::from_waker(&waker);
    let (mut r, mut w) = split(Exclusive::idle());
    assert_eq!(w.poll_write(&mut cx), HalfStep::Perform(Operation::Write));
    w.connection_mut().value = 41;
    w.release();
    assert_eq!(r.poll_read(&mut cx), HalfStep::Perform(Operation::Read));
    assert_eq!(r.connection_mut().value, 41);
    r.connection_mut().value += 1;
    r.release();
    assert_eq!(w.poll_flush(&mut cx), HalfStep::Perform(Operation::Flush));
    assert_eq!(w.connection_mut().value, 42);
    w.release();
}

#[test]
fn halves_never_enter_the_connection_together() {
    let waker = noop_waker();
    let mut cx = Context::from_waker(&waker);
    let (mut r, mut w) = split(Exclusive::idle());

    assert_eq!(r.poll_read(&mut cx), HalfStep::Perform(Operation::Read));
    r.connection_mut().enter();
    // The write half asks while the read half is inside its call.
    assert_eq!(w.poll_write(&mut cx), HalfStep::Suspend);
    assert!(!w.is_holding());
    r.connection_mut().reads += 1;
    r.connection_mut().leave();
    r.release();

    // The lock is free again: the write half is not starved.
    assert_eq!(w.poll_write(&mut cx), HalfStep::Perform(Operation::Write));
    w.connection_mut().enter();
    assert_eq!(r.poll_read(&mut cx), HalfStep::Suspend);
    assert!(!r.is_holding());
    w.connection_mut().writes += 1;
    w.connection_mut().leave();
    w.release();

    assert_eq!(r.poll_read(&mut cx), HalfStep::Perform(Operation::Read));
    assert_eq!(r.connection_mut().reads, 1);
    assert_eq!(r.connection_mut().writes, 1);
    assert!(!r.connection_mut().busy);
    r.release();
}

#[test]
fn many_interleaved_operations_stay_exclusive() {
    let waker = noop_waker();
    let mut cx = Context::from_waker(&waker);
    let (mut r, mut w) = split(Exclusive::idle());
    let mut round: u32 = 0;
    while round < 200 {
        assert_eq!(r.poll_read(&mut cx), HalfStep::Perform(Operation::Read));
        r.connection_mut().enter();
        assert_eq!(w.poll_write(&mut cx), HalfStep::Suspend);
        r.connection_mut().reads += 1;
        r.connection_mut().leave();
        r.release();
        assert_eq!(w.poll_write(&mut cx), HalfStep::Perform(Operation::Write));
        w.connection_mut().enter();
        w.connection_mut().writes += 1;
        w.connection_mut().leave();
        w.release();
        round += 1;
    }
    assert_eq!(r.poll_read(&mut cx), HalfStep::Perform(Operation::Read));
    assert_eq!(r.connection_mut().reads, 200);
    assert_eq!(r.connection_mut().writes, 200);
    r.release();
}

#[test]
fn a_half_inside_a_call_does_not_ask_again() {
    let waker = noop_waker();
    let mut cx = Context::from_waker(&waker);
    let (mut r, _w) = split(7u32);
    assert_eq!(r.poll_read(&mut cx), HalfStep::Perform(Operation::Read));
    assert_eq!(r.poll_read(&mut cx), HalfStep::Suspend);
    assert!(r.is_holding());
    r.release();
    assert_eq!(r.poll_read(&mut cx), HalfStep::Perform(Operation::Read));
    r.release();
}

#[test]
fn lock_is_released_after_a_failed_call() {
    let waker = noop_waker();
    let mut cx = Context::from_waker(&waker);
    let (mut r, mut w) = split(Exclusive::idle());
    assert_eq!(w.poll_write(&mut cx), HalfStep::Perform(Operation::Write));
    // The write fails; the half still gives the lock back.
    let failed: Result<usize, &str> = Err("broken pipe");
    w.release();
    assert_eq!(failed, Err("broken pipe"));
    assert_eq!(r.poll_read(&mut cx), HalfStep::Perform(Operation::Read));
    r.release();
}

#[test]
fn a_busy_answer_suspends_the_half() {
    let (mut r, mut w) = split(7u32);
    assert_eq!(r.on_lock_polled(None), HalfStep::Suspend);
    assert!(!r.is_holding());
    assert_eq!(w.on_lock_polled(None, Operation::Shutdown), HalfStep::Suspend);
    assert!(!w.is_holding());
}

#[test]
fn release_without_a_held_lock_changes_nothing() {
    let waker = noop_waker();
    let mut cx = Context::from_waker(&waker);
    let (mut r, mut w) = split(7u32);
    r.release();
    w.release();
    assert!(!r.is_holding());
    assert_eq!(w.poll_write(&mut cx), HalfStep::Perform(Operation::Write));
    w.release();
}

#[test]
fn a_shared_write_half_goes_through_the_same_lock() {
    let waker = noop_waker();
    let mut cx = Context::from_waker(&waker);
    let (mut r, w) = split(Exclusive::idle());
    let mut closer = w.share();
    assert!(!closer.is_holding());
    assert_eq!(r.poll_read(&mut cx), HalfStep::Perform(Operation::Read));
    assert_eq!(closer.poll_shutdown(&mut cx), HalfStep::Suspend);
    r.connection_mut().value = 9;
    r.release();
    assert_eq!(closer.poll_shutdown(&mut cx), HalfStep::Perform(Operation::Shutdown));
    assert_eq!(closer.connection_mut().value, 9);
    closer.release();
}

#[test]
fn each_operation_belongs_to_exactly_one_side() {
    let all = [Operation::Read, Operation::Write, Operation::Flush, Operation::Shutdown];
    for op in all.iter() {
        assert_ne!(Side::Read.allows(*op), Side::Write.allows(*op));
    }
    assert!(Side::Read.allows(Operation::Read));
    assert!(Side::Write.allows(Operation::Write));
    assert!(Side::Write.allows(Operation::Flush));
    assert!(Side::Write.allows(Operation::Shutdown));
    assert!(!Side::Read.allows(Operation::Shutdown));
}

#[test]
fn other_side_is_the_opposite_one() {
    assert_eq!(Side::Read.other(), Side::Write);
    assert_eq!(Side::Write.other(), Side::Read);
    assert_eq!(Side::Read.other().other(), Side::Read);
}

#[test]
fn guard_grants_only_while_free() {
    let mut guard = Guard::new();
    assert_eq!(guard.held_by(), None);
    assert_eq!(guard.poll_lock(Side::Read), LockPoll::Acquired);
    assert_eq!(guard.held_by(), Some(Side::Read));
    assert_eq!(guard.poll_lock(Side::Write), LockPoll::Busy);
    assert_eq!(guard.poll_lock(Side::Read), LockPoll::Busy);
    assert_eq!(guard.held_by(), Some(Side::Read));
    guard.release(Side::Read);
    assert_eq!(guard.held_by(), None);
    assert_eq!(guard.poll_lock(Side::Write), LockPoll::Acquired);
    assert_eq!(guard.held_by(), Some(Side::Write));
}

#[test]
fn the_lock_answers_as_the_guard_does() {
    let waker = noop_waker();
    let mut cx = Context::from_waker(&waker);
    let (mut r, mut w) = split(7u32);
    let mut guard = Guard::new();

    let expected = guard.poll_lock(Side::Read);
    let step = r.poll_read(&mut cx);
    assert_eq!(expected == LockPoll::Acquired, step == HalfStep::Perform(Operation::Read));

    let expected = guard.poll_lock(Side::Write);
    let step = w.poll_write(&mut cx);
    assert_eq!(expected, LockPoll::Busy);
    assert_eq!(step, HalfStep::Suspend);

    guard.release(Side::Read);
    r.release();

    let expected = guard.poll_lock(Side::Write);
    let step = w.poll_write(&mut cx);
    assert_eq!(expected, LockPoll::Acquired);
    assert_eq!(step, HalfStep::Perform(Operation::Write));
    guard.release(Side::Write);
    w.release();
}
