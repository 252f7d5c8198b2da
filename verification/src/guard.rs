//! The mutual-exclusion protocol between the two halves of one connection.
//!
//! `Guard` is the lock as the halves rely on it: it is free or held by one
//! side, grants an acquisition only while free, and is free again after a
//! release. `Pair` is the joint state of one lock and the two halves that
//! share it; its traces are the interleavings of the two halves' operations.

use vstd::prelude::*;
use crate::split::{LockPoll, Side};

verus! {

/// The lock's answer to an acquisition attempt, given who holds it.
pub open spec fn answer_for(holder: Option<Side>) -> LockPoll {
    if holder is None {
        LockPoll::Acquired
    } else {
        LockPoll::Busy
    }
}

/// Who holds the lock after `side` has polled it.
pub open spec fn holder_after_poll(holder: Option<Side>, side: Side) -> Option<Side> {
    if holder is None {
        Some(side)
    } else {
        holder
    }
}

/// Who holds the lock after `side` has released it: nobody, if `side` held
/// it; otherwise whoever held it before.
pub open spec fn holder_after_release(holder: Option<Side>, side: Side) -> Option<Side> {
    if holder == Some(side) {
        None
    } else {
        holder
    }
}

/// A reference model of the lock that guards one connection: free, or held
/// by one of the halves. The relay itself runs on the lock of `tokio_sync`;
/// this model says what the halves rely on.
pub struct Guard {
    holder: Option<Side>,
}

impl Guard {
    /// The side that holds the lock, if any.
    pub closed spec fn holder(&self) -> Option<Side> {
        self.holder
    }

    /// A free lock.
    pub fn new() -> (g: Guard)
        ensures
            g.holder() is None,
    {
        Guard { holder: None }
    }

    /// The side that holds the lock, if any.
    pub fn held_by(&self) -> (h: Option<Side>)
        ensures
            h == self.holder(),
    {
        self.holder
    }

    /// One acquisition attempt by `side`. A free lock is granted and then held
    /// by `side`; a held lock answers `Busy` and stays as it is, also when
    /// `side` itself holds it.
    pub fn poll_lock(&mut self, side: Side) -> (answer: LockPoll)
        ensures
            answer == answer_for(old(self).holder()),
            final(self).holder() == holder_after_poll(old(self).holder(), side),
    {
        match self.holder {
            None => {
                self.holder = Some(side);
                LockPoll::Acquired
            },
            Some(_) => LockPoll::Busy,
        }
    }

    /// `side` gives the lock back if it holds it; otherwise nothing changes.
    pub fn release(&mut self, side: Side)
        ensures
            final(self).holder() == holder_after_release(old(self).holder(), side),
    {
        let held = match self.holder {
            Some(holder) => holder == side,
            None => false,
        };
        if held {
            self.holder = None;
        }
    }
}

/// One lock and the two halves that share it.
pub struct Pair {
    /// The side that holds the lock, if any.
    pub holder: Option<Side>,
    /// Whether the read half is inside a call on the connection.
    pub reading: bool,
    /// Whether the write half is inside a call on the connection.
    pub writing: bool,
}

/// What one of the two halves does in one step.
pub enum PairEvent {
    /// The half polls the lock and, if granted, enters its call.
    Poll(Side),
    /// The half's call has returned and the half releases the lock.
    Release(Side),
}

impl Pair {
    /// A freshly split connection: the lock is free and both halves are idle.
    pub open spec fn initial() -> Pair {
        Pair { holder: None, reading: false, writing: false }
    }

    /// Whether the half of `side` is inside a call on the connection.
    pub open spec fn inside(self, side: Side) -> bool {
        match side {
            Side::Read => self.reading,
            Side::Write => self.writing,
        }
    }

    /// The same state with the half of `side` inside a call or not.
    pub open spec fn with_inside(self, side: Side, inside: bool) -> Pair {
        match side {
            Side::Read => Pair { reading: inside, ..self },
            Side::Write => Pair { writing: inside, ..self },
        }
    }

    /// The state after `event`. A half that is idle polls the lock and enters
    /// its call if the lock is granted; a half that is inside a call does
    /// not ask again. A half that is inside a call frees the lock when it
    /// releases; a release by an idle half changes nothing.
    pub open spec fn next(self, event: PairEvent) -> Pair {
        match event {
            PairEvent::Poll(side) => if self.inside(side) {
                self
            } else {
                Pair { holder: holder_after_poll(self.holder, side), ..self }.with_inside(
                    side,
                    answer_for(self.holder) == LockPoll::Acquired,
                )
            },
            PairEvent::Release(side) => if self.inside(side) {
                Pair { holder: None, ..self }.with_inside(side, false)
            } else {
                self
            },
        }
    }

    /// A half is inside a call exactly while it holds the lock.
    pub open spec fn consistent(self) -> bool {
        &&& self.reading <==> self.holder == Some(Side::Read)
        &&& self.writing <==> self.holder == Some(Side::Write)
    }

    /// At most one half is inside a call on the connection.
    pub open spec fn exclusive(self) -> bool {
        !(self.reading && self.writing)
    }
}

/// The state that a sequence of steps leads to from a fresh split.
pub open spec fn run(trace: Seq<PairEvent>) -> Pair
    decreases trace.len(),
{
    if trace.len() == 0 {
        Pair::initial()
    } else {
        run(trace.drop_last()).next(trace.last())
    }
}

/// Mutual exclusion: however the operations of the two halves interleave, a
/// half is inside a call only while it holds the lock, so the two halves are
/// never inside a call on the connection at the same time.
pub proof fn lemma_mutual_exclusion(trace: Seq<PairEvent>)
    ensures
        run(trace).consistent(),
        run(trace).exclusive(),
    decreases trace.len(),
{
    if trace.len() > 0 {
        lemma_mutual_exclusion(trace.drop_last());
    }
}

/// No starvation: once the half that was inside a call has released the
/// lock, the lock is free and the next poll of either half is granted.
pub proof fn lemma_release_frees_lock(trace: Seq<PairEvent>, side: Side, next: Side)
    requires
        run(trace).inside(side),
    ensures
        run(trace).next(PairEvent::Release(side)).holder is None,
        run(trace).next(PairEvent::Release(side)).next(PairEvent::Poll(next)).inside(next),
{
    lemma_mutual_exclusion(trace);
}

/// A poll while the other half is inside its call suspends the caller and
/// leaves the connection to the other half.
pub proof fn lemma_poll_while_busy_suspends(trace: Seq<PairEvent>, side: Side)
    requires
        run(trace).inside(side.other_spec()),
    ensures
        answer_for(run(trace).holder) == LockPoll::Busy,
        run(trace).next(PairEvent::Poll(side)) == run(trace),
{
    lemma_mutual_exclusion(trace);
}

} // verus!
