//! The relay loop: bytes read from a source are written to a destination, in
//! order and unchanged, until the source ends or either side fails.
//!
//! The loop itself does no reading or writing. It says what to do next, is
//! told what came of it, and owns the bytes that have been read but not yet
//! written.

use vstd::prelude::*;
use vstd::slice::{slice_subrange, slice_to_vec};
use crate::error::RelayError;

verus! {

/// The most bytes that one read may return.
pub const BUFFER_SIZE: usize = 2048;

/// Where a relay loop stands.
#[derive(Clone, Copy, Debug, PartialEq, Eq, Structural)]
pub enum Phase {
    /// Nothing is in flight; the next step is a read from the source.
    Reading,
    /// Bytes are in flight; the next step is a write to the destination.
    Writing,
    /// The source has ended and every byte read has been written.
    Completed,
    /// A read or a write has failed.
    Failed,
}

/// What the driver of a relay loop does next.
#[derive(Clone, Copy, Debug, PartialEq, Eq, Structural)]
pub enum RelayAction {
    /// Read up to `BUFFER_SIZE` bytes from the source.
    Read,
    /// Write the pending bytes to the destination.
    Write,
    /// Stop: the source has ended after this many bytes were copied.
    Finish(u64),
}

/// What the driver reports back to a relay loop.
pub enum RelayEvent {
    /// A read returned these bytes; none means the source has ended.
    Read(Seq<u8>),
    /// A read failed.
    ReadFailed,
    /// A write took this many of the pending bytes.
    Written(nat),
    /// A write failed.
    WriteFailed,
}

/// The state of a relay loop.
pub struct RelayView {
    pub phase: Phase,
    /// The bytes that have been read but not yet written, in order.
    pub pending: Seq<u8>,
    /// How many bytes have been written so far.
    pub copied: nat,
}

impl RelayView {
    /// A loop that has not read anything yet.
    pub open spec fn initial() -> RelayView {
        RelayView { phase: Phase::Reading, pending: Seq::empty(), copied: 0 }
    }

    /// Whether `event` can be reported in this state: reads answer a read and
    /// fit the buffer, writes answer a write and take no more than is
    /// pending, and the byte count stays within `u64`.
    pub open spec fn accepts(self, event: RelayEvent) -> bool {
        match event {
            RelayEvent::Read(chunk) => self.phase == Phase::Reading && chunk.len() <= BUFFER_SIZE,
            RelayEvent::ReadFailed => self.phase == Phase::Reading,
            RelayEvent::Written(n) => self.phase == Phase::Writing && n <= self.pending.len()
                && self.copied + n <= u64::MAX,
            RelayEvent::WriteFailed => self.phase == Phase::Writing,
        }
    }

    /// The state after `event`. An empty read completes the loop; any other
    /// read puts its bytes in flight. A write removes what it took from the
    /// front of the pending bytes, and the loop reads again only when none is
    /// left. A failure ends the loop.
    pub open spec fn next(self, event: RelayEvent) -> RelayView {
        match event {
            RelayEvent::Read(chunk) => if chunk.len() == 0 {
                RelayView { phase: Phase::Completed, ..self }
            } else {
                RelayView { phase: Phase::Writing, pending: chunk, ..self }
            },
            RelayEvent::Written(n) => RelayView {
                phase: if n == self.pending.len() {
                    Phase::Reading
                } else {
                    Phase::Writing
                },
                pending: self.pending.skip(n as int),
                copied: self.copied + n,
            },
            RelayEvent::ReadFailed => RelayView { phase: Phase::Failed, ..self },
            RelayEvent::WriteFailed => RelayView { phase: Phase::Failed, ..self },
        }
    }

    /// What the driver does in this state. A failed loop has nothing left to
    /// do; its error has been handed out.
    pub open spec fn action(self) -> Option<RelayAction> {
        match self.phase {
            Phase::Reading => Some(RelayAction::Read),
            Phase::Writing => Some(RelayAction::Write),
            Phase::Completed => Some(RelayAction::Finish(self.copied as u64)),
            Phase::Failed => None,
        }
    }

    /// Whether the loop has ended.
    pub open spec fn finished(self) -> bool {
        self.phase == Phase::Completed || self.phase == Phase::Failed
    }

    /// Bytes are in flight exactly while the loop is writing or has failed in
    /// a write, and the count fits `u64`.
    pub open spec fn wf(self) -> bool {
        &&& self.phase == Phase::Writing ==> self.pending.len() > 0
        &&& self.phase == Phase::Reading || self.phase == Phase::Completed
            ==> self.pending.len() == 0
        &&& self.pending.len() <= BUFFER_SIZE
        &&& self.copied <= u64::MAX
    }
}

/// A relay loop for one direction of one connection.
pub struct RelayLoop {
    buf: Vec<u8>,
    pos: usize,
    copied: u64,
    phase: Phase,
}

impl View for RelayLoop {
    type V = RelayView;

    closed spec fn view(&self) -> RelayView {
        RelayView {
            phase: self.phase,
            pending: self.buf@.subrange(self.pos as int, self.buf@.len() as int),
            copied: self.copied as nat,
        }
    }
}

impl RelayLoop {
    #[verifier::type_invariant]
    spec fn inv(self) -> bool {
        self.pos <= self.buf@.len()
    }

    /// A loop that has not read anything yet. Its first action is a read.
    pub fn new() -> (relay: RelayLoop)
        ensures
            relay@ == RelayView::initial(),
    {
        let relay = RelayLoop { buf: Vec::new(), pos: 0, copied: 0, phase: Phase::Reading };
        assert(relay@.pending =~= Seq::<u8>::empty());
        relay
    }

    /// Where the loop stands.
    pub fn phase(&self) -> (p: Phase)
        ensures
            p == self@.phase,
    {
        self.phase
    }

    /// How many bytes have been written to the destination so far.
    pub fn copied(&self) -> (n: u64)
        ensures
            n == self@.copied,
    {
        self.copied
    }

    /// The bytes that have been read but not yet written: what the next write
    /// hands to the destination.
    pub fn pending(&self) -> (bytes: &[u8])
        ensures
            bytes@ == self@.pending,
    {
        proof {
            use_type_invariant(self);
        }
        slice_subrange(self.buf.as_slice(), self.pos, self.buf.len())
    }

    /// A read returned `chunk`. An empty chunk is the end of the source: the
    /// loop completes with the count of bytes copied. Any other chunk is to
    /// be written out before the next read.
    pub fn on_read(&mut self, chunk: &[u8]) -> (action: RelayAction)
        requires
            old(self)@.accepts(RelayEvent::Read(chunk@)),
        ensures
            final(self)@ == old(self)@.next(RelayEvent::Read(chunk@)),
            Some(action) == final(self)@.action(),
    {
        proof {
            use_type_invariant(&*self);
        }
        if chunk.len() == 0 {
            self.phase = Phase::Completed;
            RelayAction::Finish(self.copied)
        } else {
            let buf = slice_to_vec(chunk);
            let copied = self.copied;
            *self = RelayLoop { buf, pos: 0, copied, phase: Phase::Writing };
            assert(self@.pending =~= chunk@);
            RelayAction::Write
        }
    }

    /// A write took the first `n` pending bytes. The loop writes again until
    /// none is pending, then reads again.
    pub fn on_written(&mut self, n: usize) -> (action: RelayAction)
        requires
            old(self)@.accepts(RelayEvent::Written(n as nat)),
        ensures
            final(self)@ == old(self)@.next(RelayEvent::Written(n as nat)),
            Some(action) == final(self)@.action(),
    {
        proof {
            use_type_invariant(&*self);
        }
        let ghost before = self@;
        let len = self.buf.len();
        assert(before.pending.len() == len - self.pos);
        self.pos = self.pos + n;
        self.copied = self.copied + n as u64;
        assert(self@.pending =~= before.pending.skip(n as int));
        if self.pos == len {
            self.phase = Phase::Reading;
            RelayAction::Read
        } else {
            self.phase = Phase::Writing;
            RelayAction::Write
        }
    }

    /// A read failed with `error`: the loop ends and the error goes to the
    /// caller.
    pub fn on_read_failed<E>(&mut self, error: E) -> (failure: RelayError<E>)
        requires
            old(self)@.accepts(RelayEvent::ReadFailed),
        ensures
            final(self)@ == old(self)@.next(RelayEvent::ReadFailed),
            failure == RelayError::Read(error),
    {
        proof {
            use_type_invariant(&*self);
        }
        self.phase = Phase::Failed;
        RelayError::Read(error)
    }

    /// A write failed with `error`: the loop ends and the error goes to the
    /// caller.
    pub fn on_write_failed<E>(&mut self, error: E) -> (failure: RelayError<E>)
        requires
            old(self)@.accepts(RelayEvent::WriteFailed),
        ensures
            final(self)@ == old(self)@.next(RelayEvent::WriteFailed),
            failure == RelayError::Write(error),
    {
        proof {
            use_type_invariant(&*self);
        }
        self.phase = Phase::Failed;
        RelayError::Write(error)
    }
}

/// The state that a sequence of reports leads to from a new loop.
pub open spec fn run(trace: Seq<RelayEvent>) -> RelayView
    decreases trace.len(),
{
    if trace.len() == 0 {
        RelayView::initial()
    } else {
        run(trace.drop_last()).next(trace.last())
    }
}

/// Whether each report of the trace can be made in the state it meets.
pub open spec fn admissible(trace: Seq<RelayEvent>) -> bool
    decreases trace.len(),
{
    trace.len() == 0 || (admissible(trace.drop_last()) && run(trace.drop_last()).accepts(
        trace.last(),
    ))
}

/// Every byte that the source has handed over, in order.
pub open spec fn received(trace: Seq<RelayEvent>) -> Seq<u8>
    decreases trace.len(),
{
    if trace.len() == 0 {
        Seq::empty()
    } else {
        match trace.last() {
            RelayEvent::Read(chunk) => received(trace.drop_last()) + chunk,
            _ => received(trace.drop_last()),
        }
    }
}

/// Every byte that the destination has taken, in order: each write takes the
/// front of what was pending when it was made.
pub open spec fn delivered(trace: Seq<RelayEvent>) -> Seq<u8>
    decreases trace.len(),
{
    if trace.len() == 0 {
        Seq::empty()
    } else {
        match trace.last() {
            RelayEvent::Written(n) => delivered(trace.drop_last()) + run(
                trace.drop_last(),
            ).pending.take(n as int),
            _ => delivered(trace.drop_last()),
        }
    }
}

/// Transparency: at every point of every run, what the destination has taken
/// followed by what is in flight is exactly what the source has handed over.
/// Nothing is inserted, lost or reordered; the count is the number of bytes
/// delivered; and a completed loop has delivered everything it received.
pub proof fn lemma_transparency(trace: Seq<RelayEvent>)
    requires
        admissible(trace),
    ensures
        run(trace).wf(),
        delivered(trace) + run(trace).pending == received(trace),
        delivered(trace).is_prefix_of(received(trace)),
        run(trace).copied == delivered(trace).len(),
        run(trace).phase == Phase::Completed ==> delivered(trace) == received(trace)
            && run(trace).copied == received(trace).len(),
    decreases trace.len(),
{
    if trace.len() == 0 {
        assert(delivered(trace) + run(trace).pending =~= received(trace));
    } else {
        let before = trace.drop_last();
        lemma_transparency(before);
        let s = run(before);
        match trace.last() {
            RelayEvent::Read(chunk) => {
                assert(delivered(trace) + run(trace).pending =~= received(trace));
            },
            RelayEvent::Written(n) => {
                assert(s.pending.take(n as int) + s.pending.skip(n as int) =~= s.pending);
                assert(delivered(trace) + run(trace).pending =~= delivered(before) + s.pending);
            },
            _ => {},
        }
    }
    assert(delivered(trace) =~= received(trace).subrange(0, delivered(trace).len() as int));
    if run(trace).phase == Phase::Completed {
        assert(delivered(trace) =~= received(trace));
    }
}

/// A loop ends on the end of the source and on any failure, whatever it was
/// doing: once the connections are torn down, the pending read or write
/// returns with one of these and the loop does not go on.
pub proof fn lemma_teardown_ends_loop(state: RelayView, error_or_end: RelayEvent)
    requires
        state.accepts(error_or_end),
        error_or_end is ReadFailed || error_or_end is WriteFailed || error_or_end
            == RelayEvent::Read(Seq::empty()),
    ensures
        state.next(error_or_end).finished(),
        state.next(error_or_end).phase == Phase::Completed <==> error_or_end is Read,
{
}

/// A loop that has ended takes no further report.
pub proof fn lemma_finished_is_final(state: RelayView, event: RelayEvent)
    requires
        state.finished(),
    ensures
        !state.accepts(event),
{
}

} // verus!
