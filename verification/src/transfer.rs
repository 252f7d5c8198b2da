//! The handler of one proxied connection: it has the outbound connection
//! dialled, has both connections split and relayed in both directions, and
//! has both torn down as soon as either direction has finished.
//!
//! The handler does no dialling or relaying itself. It is told what happened
//! and answers with what to do.

use tokio_sync::Lock;
use vstd::prelude::*;
use crate::error::{ProxyError, RelayError};
use crate::split::{split, ReadHalf, WriteHalf};

verus! {

/// One of the two directions in which bytes are relayed.
#[derive(Clone, Copy, Debug, PartialEq, Eq, Structural)]
pub enum Direction {
    /// Read from the inbound connection, write to the outbound one.
    InboundToOutbound,
    /// Read from the outbound connection, write to the inbound one.
    OutboundToInbound,
}

impl Direction {
    pub open spec fn opposite_spec(self) -> Direction {
        match self {
            Direction::InboundToOutbound => Direction::OutboundToInbound,
            Direction::OutboundToInbound => Direction::InboundToOutbound,
        }
    }

    /// The other direction of the same connection.
    pub fn opposite(self) -> (d: Direction)
        ensures
            d == self.opposite_spec(),
            d != self,
    {
        match self {
            Direction::InboundToOutbound => Direction::OutboundToInbound,
            Direction::OutboundToInbound => Direction::InboundToOutbound,
        }
    }
}

/// The four halves of one proxied connection.
#[verifier::reject_recursive_types(I)]
#[verifier::reject_recursive_types(O)]
pub struct RelayPair<I, O> {
    pub inbound_read: ReadHalf<I>,
    pub inbound_write: WriteHalf<I>,
    pub outbound_read: ReadHalf<O>,
    pub outbound_write: WriteHalf<O>,
}

impl<I, O> RelayPair<I, O> {
    /// Splits the inbound and the outbound connection, each behind a lock of
    /// its own.
    pub fn new(inbound: I, outbound: O) -> (pair: RelayPair<I, O>)
        ensures
            call_ensures(Lock::<I>::new, (inbound,), pair.inbound_read.handle()),
            call_ensures(Lock::<O>::new, (outbound,), pair.outbound_read.handle()),
            cloned(pair.inbound_read.handle(), pair.inbound_write.handle()),
            cloned(pair.outbound_read.handle(), pair.outbound_write.handle()),
            !pair.inbound_read.holding(),
            !pair.inbound_write.holding(),
            !pair.outbound_read.holding(),
            !pair.outbound_write.holding(),
    {
        let (inbound_read, inbound_write) = split(inbound);
        let (outbound_read, outbound_write) = split(outbound);
        RelayPair { inbound_read, inbound_write, outbound_read, outbound_write }
    }

    /// A further write half of each connection, inbound first: what the
    /// handler brings the connections down with while the relay loops are
    /// using the four halves.
    pub fn closers(&self) -> (closers: (WriteHalf<I>, WriteHalf<O>))
        ensures
            cloned(self.inbound_write.handle(), closers.0.handle()),
            cloned(self.outbound_write.handle(), closers.1.handle()),
            !closers.0.holding(),
            !closers.1.holding(),
    {
        (self.inbound_write.share(), self.outbound_write.share())
    }

    /// The source and the destination of each direction: what is read from
    /// one connection is written to the other.
    pub fn into_directions(self) -> (ends: (
        (ReadHalf<I>, WriteHalf<O>),
        (ReadHalf<O>, WriteHalf<I>),
    ))
        ensures
            ends.0.0 == self.inbound_read,
            ends.0.1 == self.outbound_write,
            ends.1.0 == self.outbound_read,
            ends.1.1 == self.inbound_write,
    {
        ((self.inbound_read, self.outbound_write), (self.outbound_read, self.inbound_write))
    }
}

/// What a connection handler is told.
#[derive(Debug, PartialEq, Eq)]
pub enum HandlerEvent<E> {
    /// The outbound connection is open.
    Dialed,
    /// The outbound connection could not be opened.
    DialFailed(E),
    /// The relay loop of one direction has ended, with its byte count or its
    /// failure.
    LoopFinished(Direction, Result<u64, RelayError<E>>),
}

/// What a connection handler asks for.
#[derive(Debug, PartialEq, Eq)]
pub enum HandlerAction<E> {
    /// Split both connections and relay in both directions at once.
    Relay,
    /// Shut down both connections, so that the loop still running meets the
    /// end of its stream or an error, and wait for it.
    Shutdown,
    /// Close both connections and report how the handler ended.
    Close(Result<(), ProxyError<E>>),
    /// Nothing to do.
    Nothing,
}

impl<E> HandlerEvent<E> {
    /// Whether this event is the end, good or bad, of the loop of
    /// `direction`.
    pub open spec fn is_end_of(self, direction: Direction) -> bool {
        match self {
            HandlerEvent::LoopFinished(d, _) => d == direction,
            _ => false,
        }
    }

    /// Whether this event is the good end of the loop of `direction`.
    pub open spec fn is_good_end_of(self, direction: Direction) -> bool {
        match self {
            HandlerEvent::LoopFinished(d, r) => d == direction && r is Ok,
            _ => false,
        }
    }
}

impl<E> HandlerAction<E> {
    /// Whether the action brings both connections down.
    pub open spec fn tears_down(self) -> bool {
        self is Shutdown || self is Close
    }
}

/// The handler of one proxied connection.
#[derive(Clone, Copy, Debug, PartialEq, Eq, Structural)]
pub enum ConnectionHandler {
    /// Waiting for the outbound connection.
    Dialing,
    /// Relaying; `finished` is the direction whose loop has already ended
    /// well.
    Relaying { finished: Option<Direction> },
    /// Done: both loops ended well, or something failed.
    Closed { succeeded: bool },
}

impl ConnectionHandler {
    /// The handler's answer to `event`, and the state it moves to.
    ///
    /// A failed dial closes the handler at once. An open outbound connection
    /// starts the relay. The first loop to end well has both connections shut
    /// down; the second closes the handler with success. A loop that fails
    /// closes the handler with that failure at once, without waiting for the
    /// other. Whatever else arrives, a repeated report or one after the
    /// handler has closed, changes nothing.
    pub open spec fn next<E>(self, event: HandlerEvent<E>) -> (ConnectionHandler, HandlerAction<E>) {
        match (self, event) {
            (ConnectionHandler::Dialing, HandlerEvent::Dialed) => (
                ConnectionHandler::Relaying { finished: None },
                HandlerAction::Relay,
            ),
            (ConnectionHandler::Dialing, HandlerEvent::DialFailed(e)) => (
                ConnectionHandler::Closed { succeeded: false },
                HandlerAction::Close(Err(ProxyError::Dial(e))),
            ),
            (
                ConnectionHandler::Relaying { finished },
                HandlerEvent::LoopFinished(direction, result),
            ) => if finished == Some(direction) {
                (self, HandlerAction::Nothing)
            } else {
                match result {
                    Err(e) => (
                        ConnectionHandler::Closed { succeeded: false },
                        HandlerAction::Close(Err(ProxyError::Relay(e))),
                    ),
                    Ok(_) => if finished is None {
                        (
                            ConnectionHandler::Relaying { finished: Some(direction) },
                            HandlerAction::Shutdown,
                        )
                    } else {
                        (ConnectionHandler::Closed { succeeded: true }, HandlerAction::Close(Ok(())))
                    },
                }
            },
            _ => (self, HandlerAction::Nothing),
        }
    }

    /// A handler for a connection that has just been accepted. Its first
    /// need is the outbound connection.
    pub fn new() -> (handler: ConnectionHandler)
        ensures
            handler == ConnectionHandler::Dialing,
    {
        ConnectionHandler::Dialing
    }

    /// Whether the handler is done.
    pub fn is_closed(&self) -> (b: bool)
        ensures
            b <==> *self is Closed,
    {
        match self {
            ConnectionHandler::Closed { .. } => true,
            _ => false,
        }
    }

    /// Takes `event` in and says what to do.
    pub fn step<E>(&mut self, event: HandlerEvent<E>) -> (action: HandlerAction<E>)
        ensures
            (*final(self), action) == old(self).next(event),
    {
        match event {
            HandlerEvent::Dialed => match *self {
                ConnectionHandler::Dialing => {
                    *self = ConnectionHandler::Relaying { finished: None };
                    HandlerAction::Relay
                },
                _ => HandlerAction::Nothing,
            },
            HandlerEvent::DialFailed(e) => match *self {
                ConnectionHandler::Dialing => {
                    *self = ConnectionHandler::Closed { succeeded: false };
                    HandlerAction::Close(Err(ProxyError::Dial(e)))
                },
                _ => HandlerAction::Nothing,
            },
            HandlerEvent::LoopFinished(direction, result) => match *self {
                ConnectionHandler::Relaying { finished } => {
                    let repeated = match finished {
                        Some(d) => d == direction,
                        None => false,
                    };
                    if repeated {
                        HandlerAction::Nothing
                    } else {
                        match result {
                            Err(e) => {
                                *self = ConnectionHandler::Closed { succeeded: false };
                                HandlerAction::Close(Err(ProxyError::Relay(e)))
                            },
                            Ok(_) => match finished {
                                None => {
                                    *self = ConnectionHandler::Relaying {
                                        finished: Some(direction),
                                    };
                                    HandlerAction::Shutdown
                                },
                                Some(_) => {
                                    *self = ConnectionHandler::Closed { succeeded: true };
                                    HandlerAction::Close(Ok(()))
                                },
                            },
                        }
                    }
                },
                _ => HandlerAction::Nothing,
            },
        }
    }
}

/// The state that a sequence of events leads to from `start`.
pub open spec fn run_from<E>(
    start: ConnectionHandler,
    trace: Seq<HandlerEvent<E>>,
) -> ConnectionHandler
    decreases trace.len(),
{
    if trace.len() == 0 {
        start
    } else {
        run_from(start, trace.drop_last()).next(trace.last()).0
    }
}

/// The state that a sequence of events leads to from a new handler.
pub open spec fn run<E>(trace: Seq<HandlerEvent<E>>) -> ConnectionHandler {
    run_from(ConnectionHandler::Dialing, trace)
}

/// The handler's answer to the event at `index` of the trace.
pub open spec fn answer<E>(trace: Seq<HandlerEvent<E>>, index: int) -> HandlerAction<E>
    recommends
        0 <= index < trace.len(),
{
    run(trace.take(index)).next(trace[index]).1
}

/// Whether the loop of `direction` has reported its end, good or bad,
/// somewhere in the trace.
pub open spec fn ended<E>(trace: Seq<HandlerEvent<E>>, direction: Direction) -> bool {
    exists|i: int| 0 <= i < trace.len() && #[trigger] trace[i].is_end_of(direction)
}

/// Whether the loop of `direction` has reported a good end somewhere in the
/// trace.
pub open spec fn ended_well<E>(trace: Seq<HandlerEvent<E>>, direction: Direction) -> bool {
    exists|i: int| 0 <= i < trace.len() && #[trigger] trace[i].is_good_end_of(direction)
}

/// Clean shutdown, one step: while bytes are relayed, the end of either loop,
/// good or bad, has both connections brought down in the same step. The loop
/// still running is thereby made to end too. After a failure, or after the
/// second good end, the handler is closed.
pub proof fn lemma_clean_shutdown<E>(
    handler: ConnectionHandler,
    direction: Direction,
    result: Result<u64, RelayError<E>>,
)
    requires
        handler matches ConnectionHandler::Relaying { finished } && finished != Some(direction),
    ensures
        handler.next(HandlerEvent::LoopFinished(direction, result)).1.tears_down(),
        result is Err || handler != (ConnectionHandler::Relaying { finished: None })
            ==> handler.next(HandlerEvent::LoopFinished(direction, result)).0 is Closed,
        result is Ok && handler == (ConnectionHandler::Relaying { finished: None })
            ==> handler.next(HandlerEvent::LoopFinished(direction, result)).0
            == (ConnectionHandler::Relaying { finished: Some(direction) }),
        result matches Err(e) ==> handler.next(HandlerEvent::LoopFinished(direction, result)) == (
            ConnectionHandler::Closed { succeeded: false },
            HandlerAction::Close(Err(ProxyError::Relay(e))),
        ),
{
}

/// A failed dial ends the handler before anything is relayed: the failure is
/// reported, and no later event makes the handler ask for a relay.
pub proof fn lemma_failed_dial_relays_nothing<E>(error: E, later: HandlerEvent<E>)
    ensures
        ConnectionHandler::Dialing.next(HandlerEvent::DialFailed(error)) == (
            ConnectionHandler::Closed { succeeded: false },
            HandlerAction::Close(Err(ProxyError::Dial(error))),
        ),
        ConnectionHandler::Dialing.next(HandlerEvent::DialFailed(error)).0.next(later).1
            == HandlerAction::<E>::Nothing,
{
}

/// Clean shutdown, whole runs: once any loop has reported its end to a
/// relaying handler, an answer that brings both connections down has been
/// given.
pub proof fn lemma_teardown_follows_first_end<E>(trace: Seq<HandlerEvent<E>>, index: int)
    requires
        0 <= index < trace.len(),
        trace[index] is LoopFinished,
        run(trace.take(index)) == (ConnectionHandler::Relaying { finished: None }),
    ensures
        answer(trace, index).tears_down(),
{
}

/// Clean shutdown, the end: a relaying handler does not outlive its loops.
/// Once both loops have reported their ends, in whatever order and with
/// whatever else in between, the handler is closed.
pub proof fn lemma_both_ends_close<E>(trace: Seq<HandlerEvent<E>>)
    requires
        ended(trace, Direction::InboundToOutbound),
        ended(trace, Direction::OutboundToInbound),
    ensures
        run_from(ConnectionHandler::Relaying { finished: None }, trace) is Closed,
{
    lemma_open_handler_awaits_ends(trace);
    let i = choose|i: int|
        0 <= i < trace.len() && #[trigger] trace[i].is_end_of(Direction::InboundToOutbound);
    let j = choose|j: int|
        0 <= j < trace.len() && #[trigger] trace[j].is_end_of(Direction::OutboundToInbound);
    match run_from(ConnectionHandler::Relaying { finished: None }, trace) {
        ConnectionHandler::Relaying { finished: None } => {
            assert(!trace[i].is_end_of(Direction::InboundToOutbound));
        },
        ConnectionHandler::Relaying { finished: Some(f) } => {
            assert(run_from(ConnectionHandler::Relaying { finished: None }, trace) == (
                ConnectionHandler::Relaying { finished: Some(f) }
            ));
            if f == Direction::OutboundToInbound {
                assert(!trace[i].is_end_of(f.opposite_spec()));
            } else {
                assert(!trace[j].is_end_of(f.opposite_spec()));
            }
        },
        _ => {},
    }
}

/// What a relaying handler that is still open has not seen: no end at all
/// while no direction is marked as finished, and no end of the other
/// direction while one is.
proof fn lemma_open_handler_awaits_ends<E>(trace: Seq<HandlerEvent<E>>)
    ensures
        !(run_from(ConnectionHandler::Relaying { finished: None }, trace) is Dialing),
        run_from(ConnectionHandler::Relaying { finished: None }, trace) == (
            ConnectionHandler::Relaying { finished: None }
        ) ==> forall|i: int, d: Direction|
            0 <= i < trace.len() ==> !(#[trigger] trace[i].is_end_of(d)),
        forall|f: Direction|
            run_from(ConnectionHandler::Relaying { finished: None }, trace) == (
                ConnectionHandler::Relaying { finished: Some(f) }
            ) ==> forall|i: int|
                0 <= i < trace.len() ==> !(#[trigger] trace[i].is_end_of(f.opposite_spec())),
    decreases trace.len(),
{
    if trace.len() > 0 {
        let before = trace.drop_last();
        lemma_open_handler_awaits_ends(before);
        assert forall|i: int| 0 <= i < before.len() implies before[i] == trace[i] by {}
        let start = ConnectionHandler::Relaying { finished: None };
        let state = run_from(start, trace);
        if state == start {
            assert(run_from(start, before) == start);
            assert forall|i: int, d: Direction| 0 <= i < trace.len() implies !(#[trigger] trace[i].is_end_of(
                d,
            )) by {
                if i < before.len() {
                    assert(!before[i].is_end_of(d));
                }
            }
        }
        assert forall|f: Direction|
            state == (ConnectionHandler::Relaying { finished: Some(f) }) implies forall|i: int|
            0 <= i < trace.len() ==> !(#[trigger] trace[i].is_end_of(f.opposite_spec())) by {
            assert forall|i: int| 0 <= i < trace.len() implies !(#[trigger] trace[i].is_end_of(
                f.opposite_spec(),
            )) by {
                if i < before.len() {
                    assert(!before[i].is_end_of(f.opposite_spec()));
                }
            }
        }
    }
}

/// A closed handler stays closed and asks for nothing more: its outcome is
/// reported once and nothing is tried again.
pub proof fn lemma_closed_is_final<E>(handler: ConnectionHandler, event: HandlerEvent<E>)
    requires
        handler is Closed,
    ensures
        handler.next(event) == (handler, HandlerAction::<E>::Nothing),
{
}

/// The handler succeeds only if both loops ended well.
pub proof fn lemma_success_needs_both<E>(trace: Seq<HandlerEvent<E>>)
    requires
        run(trace) == (ConnectionHandler::Closed { succeeded: true }),
    ensures
        ended_well(trace, Direction::InboundToOutbound),
        ended_well(trace, Direction::OutboundToInbound),
{
    lemma_relaying_remembers(trace);
}

/// What the state of a handler records of its run: a direction marked as
/// finished has reported a good end, and so have both once the handler has
/// succeeded.
proof fn lemma_relaying_remembers<E>(trace: Seq<HandlerEvent<E>>)
    ensures
        run(trace) matches ConnectionHandler::Relaying { finished: Some(d) } ==> ended_well(
            trace,
            d,
        ),
        run(trace) == (ConnectionHandler::Closed { succeeded: true }) ==> ended_well(
            trace,
            Direction::InboundToOutbound,
        ) && ended_well(trace, Direction::OutboundToInbound),
    decreases trace.len(),
{
    if trace.len() > 0 {
        let before = trace.drop_last();
        let last = trace.len() - 1;
        lemma_relaying_remembers(before);
        assert forall|d: Direction| ended_well(before, d) implies ended_well(trace, d) by {
            let i = choose|i: int| 0 <= i < before.len() && #[trigger] before[i].is_good_end_of(d);
            assert(trace[i].is_good_end_of(d));
        }
        match trace.last() {
            HandlerEvent::LoopFinished(direction, result) => {
                if result is Ok {
                    assert(trace[last].is_good_end_of(direction));
                }
            },
            _ => {},
        }
    }
}

} // verus!
