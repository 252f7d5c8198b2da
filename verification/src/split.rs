//! Splitting one full-duplex connection into a read half and a write half.
//!
//! The connection sits behind a shared, asynchronously acquirable lock.
//! `split` hands out two thin halves that each hold a handle of that lock. A
//! half performs one operation at a time: it polls the lock, performs exactly
//! one call on the connection if the lock was granted, and releases the lock
//! when the call has returned, whether it succeeded or failed.

use std::future::Future;
use std::task::{Context, Poll};
use tokio_sync::{Lock, LockGuard};
use vstd::pervasive::unreached;
use vstd::prelude::*;

verus! {

/// The operations a full-duplex connection offers.
#[derive(Clone, Copy, Debug, PartialEq, Eq, Structural)]
pub enum Operation {
    Read,
    Write,
    Flush,
    Shutdown,
}

/// The two capabilities that a connection is split into.
#[derive(Clone, Copy, Debug, PartialEq, Eq, Structural)]
pub enum Side {
    Read,
    Write,
}

/// The lock's answer to one acquisition attempt.
#[derive(Clone, Copy, Debug, PartialEq, Eq, Structural)]
pub enum LockPoll {
    /// The caller now has exclusive access to the connection.
    Acquired,
    /// Another half holds the lock; the caller's task is suspended.
    Busy,
}

/// What a half does after it has polled the lock.
#[derive(Clone, Copy, Debug, PartialEq, Eq, Structural)]
pub enum HalfStep {
    /// Return control to the caller without touching the connection.
    Suspend,
    /// Perform exactly one call of this operation, then release the lock.
    Perform(Operation),
}

impl Side {
    /// Whether a half of this side may ask for `op`.
    pub open spec fn permits(self, op: Operation) -> bool {
        match self {
            Side::Read => op == Operation::Read,
            Side::Write => op != Operation::Read,
        }
    }

    /// The side of the other half of the same connection.
    pub fn other(self) -> (o: Side)
        ensures
            o != self,
            o.other_spec() == self,
            o == self.other_spec(),
    {
        match self {
            Side::Read => Side::Write,
            Side::Write => Side::Read,
        }
    }

    pub open spec fn other_spec(self) -> Side {
        match self {
            Side::Read => Side::Write,
            Side::Write => Side::Read,
        }
    }

    /// Whether a half of this side may ask for `op`.
    pub fn allows(self, op: Operation) -> (b: bool)
        ensures
            b == self.permits(op),
    {
        match self {
            Side::Read => match op {
                Operation::Read => true,
                _ => false,
            },
            Side::Write => match op {
                Operation::Read => false,
                _ => true,
            },
        }
    }
}

/// The lock of `tokio_sync`. Verus sees nothing inside it.
#[verifier::external_type_specification]
#[verifier::external_body]
#[verifier::reject_recursive_types(T)]
pub struct ExLock<T>(tokio_sync::Lock<T>);

/// The guard of a held lock of `tokio_sync`. Verus sees nothing inside it.
#[verifier::external_type_specification]
#[verifier::external_body]
#[verifier::reject_recursive_types(T)]
pub struct ExLockGuard<T>(tokio_sync::LockGuard<T>);

/// The context of an asynchronous task. Verus sees nothing inside it.
#[verifier::external_type_specification]
#[verifier::external_body]
pub struct ExContext<'a>(std::task::Context<'a>);

/// `Lock::new` puts a value behind a new, unlocked lock. Nothing is claimed
/// of the result.
pub assume_specification<T>[ tokio_sync::Lock::<T>::new ](t: T) -> (lock:
    tokio_sync::Lock<T>)
;

/// `Lock::clone` makes another handle of the same lock. Nothing is claimed of
/// the result.
pub assume_specification<T>[ <tokio_sync::Lock<T> as Clone>::clone ](
    lock: &tokio_sync::Lock<T>,
) -> (handle: tokio_sync::Lock<T>)
;

/// Calls `Lock::lock` and polls the future it returns once: the guard if the
/// lock was granted, nothing if the task has to wait. In that case the lock
/// handle stays registered to wake the task of `cx`. Which of the two comes
/// back depends on who else holds the lock, so nothing is claimed of the
/// result.
#[verifier::external_body]
fn poll_lock<T>(lock: &mut Lock<T>, cx: &mut Context<'_>) -> (guard: Option<LockGuard<T>>) {
    let mut attempt = Box::pin(lock.lock());
    match attempt.as_mut().poll(cx) {
        Poll::Ready(guard) => Some(guard),
        Poll::Pending => None,
    }
}

/// `LockGuard::deref_mut`: the value behind a held lock. A guard exists only
/// for a lock that was granted, so the call does not panic. Nothing is
/// claimed of the result.
#[verifier::external_body]
fn guarded<T>(guard: &mut LockGuard<T>) -> (connection: &mut T) {
    &mut **guard
}

/// Whether `answer` is what one poll of the lock behind `handle`, made for the
/// task of `cx`, came back with.
pub closed spec fn polled<T>(
    handle: Lock<T>,
    cx: Context<'_>,
    answer: Option<LockGuard<T>>,
) -> bool {
    exists|lock: &mut Lock<T>, task: &mut Context<'_>|
        #[trigger] call_ensures(poll_lock::<T>, (lock, task), answer) && mut_ref_current(lock)
            == handle && mut_ref_current(task) == cx
}

/// Whether `connection` is what `guard` gives access to: the value behind the
/// lock that the guard holds.
pub closed spec fn reached<T>(guard: LockGuard<T>, connection: &mut T) -> bool {
    exists|held: &mut LockGuard<T>|
        #[trigger] call_ensures(guarded::<T>, (held,), connection) && mut_ref_current(held)
            == guard
}

/// The lock's answer that a poll came back with.
pub open spec fn answer_of<T>(guard: Option<LockGuard<T>>) -> LockPoll {
    if guard is Some {
        LockPoll::Acquired
    } else {
        LockPoll::Busy
    }
}

/// What a half decides once the lock has answered: suspend while the lock is
/// busy, perform `op` once it has been acquired.
pub open spec fn step_for(lock: LockPoll, op: Operation) -> HalfStep {
    match lock {
        LockPoll::Acquired => HalfStep::Perform(op),
        LockPoll::Busy => HalfStep::Suspend,
    }
}

/// Whether a step stays within the capability of `side`: whatever it performs
/// is an operation that a half of that side may ask for.
pub open spec fn keeps_to(step: HalfStep, side: Side) -> bool {
    match step {
        HalfStep::Suspend => true,
        HalfStep::Perform(op) => side.permits(op),
    }
}

/// The half of a connection that can only be read from.
#[verifier::reject_recursive_types(T)]
pub struct ReadHalf<T> {
    handle: Lock<T>,
    held: Option<LockGuard<T>>,
}

/// The half of a connection that can only be written to, flushed and shut down.
#[verifier::reject_recursive_types(T)]
pub struct WriteHalf<T> {
    handle: Lock<T>,
    held: Option<LockGuard<T>>,
}

impl<T> ReadHalf<T> {
    /// The lock handle this half reaches its connection through.
    pub closed spec fn handle(&self) -> Lock<T> {
        self.handle
    }

    /// The guard this half holds while it is inside its one call on the
    /// connection.
    pub closed spec fn held(&self) -> Option<LockGuard<T>> {
        self.held
    }

    /// Whether this half is inside its one call on the connection.
    pub open spec fn holding(&self) -> bool {
        self.held() is Some
    }

    /// Whether this half is inside its one call on the connection.
    pub fn is_holding(&self) -> (b: bool)
        ensures
            b == self.holding(),
    {
        self.held.is_some()
    }

    /// The lock has answered an attempt to read. With the guard the half
    /// enters its one read and keeps the guard until `release`; without it
    /// the half suspends and stays as it was.
    pub fn on_lock_polled(&mut self, answer: Option<LockGuard<T>>) -> (step: HalfStep)
        requires
            answer is Some ==> !old(self).holding(),
        ensures
            step == step_for(answer_of(answer), Operation::Read),
            keeps_to(step, Side::Read),
            answer is Some ==> final(self).held() == answer,
            answer is None ==> final(self).held() == old(self).held(),
            final(self).handle() == old(self).handle(),
    {
        match answer {
            Some(guard) => {
                self.held = Some(guard);
                HalfStep::Perform(Operation::Read)
            },
            None => HalfStep::Suspend,
        }
    }

    /// One attempt to read. A half that is inside a call does not ask again
    /// and stays as it is. Any other half polls the lock behind its handle
    /// once, for the task of `cx`, and keeps what came back: with the guard it
    /// performs exactly one read and holds the lock until `release`; without
    /// it, it suspends.
    pub fn poll_read(&mut self, cx: &mut Context<'_>) -> (step: HalfStep)
        ensures
            old(self).holding() ==> step == HalfStep::Suspend && final(self).held() == old(
                self,
            ).held() && final(self).handle() == old(self).handle(),
            !old(self).holding() ==> polled(old(self).handle(), *old(cx), final(self).held()),
            !old(self).holding() ==> step == step_for(
                answer_of(final(self).held()),
                Operation::Read,
            ),
            keeps_to(step, Side::Read),
    {
        if self.held.is_some() {
            HalfStep::Suspend
        } else {
            let answer = poll_lock(&mut self.handle, cx);
            self.on_lock_polled(answer)
        }
    }

    /// The connection, for the one call that this half is inside: what the
    /// guard that the half holds gives access to.
    pub fn connection_mut(&mut self) -> (connection: &mut T)
        requires
            old(self).holding(),
        ensures
            reached(old(self).held()->0, connection),
            final(self).holding(),
            final(self).handle() == old(self).handle(),
    {
        match &mut self.held {
            Some(guard) => guarded(guard),
            None => unreached(),
        }
    }

    /// The call on the connection has returned, with a value or an error: the
    /// lock is given back before control returns to the caller.
    pub fn release(&mut self)
        ensures
            !final(self).holding(),
            final(self).handle() == old(self).handle(),
    {
        self.held = None;
    }
}

impl<T> WriteHalf<T> {
    /// The lock handle this half reaches its connection through.
    pub closed spec fn handle(&self) -> Lock<T> {
        self.handle
    }

    /// The guard this half holds while it is inside its one call on the
    /// connection.
    pub closed spec fn held(&self) -> Option<LockGuard<T>> {
        self.held
    }

    /// Whether this half is inside its one call on the connection.
    pub open spec fn holding(&self) -> bool {
        self.held() is Some
    }

    /// Whether this half is inside its one call on the connection.
    pub fn is_holding(&self) -> (b: bool)
        ensures
            b == self.holding(),
    {
        self.held.is_some()
    }

    /// The lock has answered an attempt at `op`. With the guard the half
    /// enters its one call and keeps the guard until `release`; without it
    /// the half suspends and stays as it was.
    pub fn on_lock_polled(&mut self, answer: Option<LockGuard<T>>, op: Operation) -> (step:
        HalfStep)
        requires
            Side::Write.permits(op),
            answer is Some ==> !old(self).holding(),
        ensures
            step == step_for(answer_of(answer), op),
            keeps_to(step, Side::Write),
            answer is Some ==> final(self).held() == answer,
            answer is None ==> final(self).held() == old(self).held(),
            final(self).handle() == old(self).handle(),
    {
        match answer {
            Some(guard) => {
                self.held = Some(guard);
                HalfStep::Perform(op)
            },
            None => HalfStep::Suspend,
        }
    }

    fn poll(&mut self, cx: &mut Context<'_>, op: Operation) -> (step: HalfStep)
        requires
            Side::Write.permits(op),
        ensures
            old(self).holding() ==> step == HalfStep::Suspend && final(self).held() == old(
                self,
            ).held() && final(self).handle() == old(self).handle(),
            !old(self).holding() ==> polled(old(self).handle(), *old(cx), final(self).held()),
            !old(self).holding() ==> step == step_for(answer_of(final(self).held()), op),
            keeps_to(step, Side::Write),
    {
        if self.held.is_some() {
            HalfStep::Suspend
        } else {
            let answer = poll_lock(&mut self.handle, cx);
            self.on_lock_polled(answer, op)
        }
    }

    /// One attempt to write. A half that is inside a call does not ask again
    /// and stays as it is. Any other half polls the lock behind its handle
    /// once, for the task of `cx`, and keeps what came back: with the guard it
    /// performs exactly one write and holds the lock until `release`;
    /// without it, it suspends.
    pub fn poll_write(&mut self, cx: &mut Context<'_>) -> (step: HalfStep)
        ensures
            old(self).holding() ==> step == HalfStep::Suspend && final(self).held() == old(
                self,
            ).held() && final(self).handle() == old(self).handle(),
            !old(self).holding() ==> polled(old(self).handle(), *old(cx), final(self).held()),
            !old(self).holding() ==> step == step_for(
                answer_of(final(self).held()),
                Operation::Write,
            ),
            keeps_to(step, Side::Write),
    {
        self.poll(cx, Operation::Write)
    }

    /// One attempt to flush, made as an attempt to write is.
    pub fn poll_flush(&mut self, cx: &mut Context<'_>) -> (step: HalfStep)
        ensures
            old(self).holding() ==> step == HalfStep::Suspend && final(self).held() == old(
                self,
            ).held() && final(self).handle() == old(self).handle(),
            !old(self).holding() ==> polled(old(self).handle(), *old(cx), final(self).held()),
            !old(self).holding() ==> step == step_for(
                answer_of(final(self).held()),
                Operation::Flush,
            ),
            keeps_to(step, Side::Write),
    {
        self.poll(cx, Operation::Flush)
    }

    /// One attempt to shut the connection down, made as an attempt to write
    /// is.
    pub fn poll_shutdown(&mut self, cx: &mut Context<'_>) -> (step: HalfStep)
        ensures
            old(self).holding() ==> step == HalfStep::Suspend && final(self).held() == old(
                self,
            ).held() && final(self).handle() == old(self).handle(),
            !old(self).holding() ==> polled(old(self).handle(), *old(cx), final(self).held()),
            !old(self).holding() ==> step == step_for(
                answer_of(final(self).held()),
                Operation::Shutdown,
            ),
            keeps_to(step, Side::Write),
    {
        self.poll(cx, Operation::Shutdown)
    }

    /// The connection, for the one call that this half is inside: what the
    /// guard that the half holds gives access to.
    pub fn connection_mut(&mut self) -> (connection: &mut T)
        requires
            old(self).holding(),
        ensures
            reached(old(self).held()->0, connection),
            final(self).holding(),
            final(self).handle() == old(self).handle(),
    {
        match &mut self.held {
            Some(guard) => guarded(guard),
            None => unreached(),
        }
    }

    /// The call on the connection has returned, with a value or an error: the
    /// lock is given back before control returns to the caller.
    pub fn release(&mut self)
        ensures
            !final(self).holding(),
            final(self).handle() == old(self).handle(),
    {
        self.held = None;
    }

    /// A further write half of the same connection, with a handle made from
    /// this one's. It holds nothing, and goes through the same lock as every
    /// other half. The handler keeps one to bring the connection down while
    /// a relay loop is using this half.
    pub fn share(&self) -> (other: WriteHalf<T>)
        ensures
            cloned(self.handle(), other.handle()),
            !other.holding(),
    {
        WriteHalf { handle: self.handle.clone(), held: None }
    }
}

/// Splits a connection into its two halves. The connection goes behind a new
/// lock; the read half gets the handle that `Lock::new` made for it and the
/// write half a clone of that handle. Neither half holds the lock.
pub fn split<T>(t: T) -> (halves: (ReadHalf<T>, WriteHalf<T>))
    ensures
        call_ensures(Lock::<T>::new, (t,), halves.0.handle()),
        cloned(halves.0.handle(), halves.1.handle()),
        !halves.0.holding(),
        !halves.1.holding(),
{
    let a = Lock::new(t);
    let b = a.clone();
    (ReadHalf { handle: a, held: None }, WriteHalf { handle: b, held: None })
}

/// Every operation of a connection is open to exactly one of its two halves:
/// together they grant what the connection granted, and neither reaches into
/// the other's capability.
pub proof fn lemma_halves_partition_capability(op: Operation)
    ensures
        Side::Read.permits(op) || Side::Write.permits(op),
        !(Side::Read.permits(op) && Side::Write.permits(op)),
        Side::Read.permits(op) <==> op == Operation::Read,
{
}

} // verus!
