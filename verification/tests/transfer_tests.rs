use std::task::Context;

use futures::task::noop_waker;
use tcp_relay::error::{ProxyError, RelayError};
use tcp_relay::split::{HalfStep, Operation};
use tcp_relay::transfer::{ConnectionHandler, Direction, HandlerAction, HandlerEvent, RelayPair};

type Event = HandlerEvent<&'static str>;
type Action = HandlerAction<&'static str>;

#[test]
fn new_handler_waits_for_the_dial() {
    let handler = ConnectionHandler::new();
    assert_eq!(handler, ConnectionHandler::Dialing);
    assert!(!handler.is_closed());
}

#[test]
fn open_outbound_connection_starts_the_relay() {
    let mut handler = ConnectionHandler::new();
    assert_eq!(handler.step(Event::Dialed), Action::Relay);
    assert_eq!(handler, ConnectionHandler::Relaying { finished: None });
}

#[test]
fn failed_dial_closes_the_handler_with_the_error() {
    let mut handler = ConnectionHandler::new();
    let action = handler.step(Event::DialFailed("connection refused"));
    assert_eq!(action, Action::Close(Err(ProxyError::Dial("connection refused"))));
    assert_eq!(handler, ConnectionHandler::Closed { succeeded: false });
    assert!(handler.is_closed());
}

#[test]
fn first_good_end_shuts_both_connections_down() {
    let mut handler = ConnectionHandler::new();
    handler.step(Event::Dialed);
    let action = handler.step(Event::LoopFinished(Direction::InboundToOutbound, Ok(4)));
    assert_eq!(action, Action::Shutdown);
    assert_eq!(
        handler,
        ConnectionHandler::Relaying { finished: Some(Direction::InboundToOutbound) }
    );
    assert!(!handler.is_closed());
}

#[test]
fn second_good_end_closes_with_success() {
    let mut handler = ConnectionHandler::new();
    handler.step(Event::Dialed);
    handler.step(Event::LoopFinished(Direction::OutboundToInbound, Ok(0)));
    let action = handler.step(Event::LoopFinished(Direction::InboundToOutbound, Ok(12)));
    assert_eq!(action, Action::Close(Ok(())));
    assert_eq!(handler, ConnectionHandler::Closed { succeeded: true });
}

#[test]
fn failing_loop_closes_at_once() {
    let mut handler = ConnectionHandler::new();
    handler.step(Event::Dialed);
    let failure = RelayError::Write("broken pipe");
    let action = handler.step(Event::LoopFinished(Direction::InboundToOutbound, Err(failure)));
    assert_eq!(action, Action::Close(Err(ProxyError::Relay(RelayError::Write("broken pipe")))));
    assert_eq!(handler, ConnectionHandler::Closed { succeeded: false });
}

#[test]
fn failure_after_a_good_end_still_fails_the_handler() {
    let mut handler = ConnectionHandler::new();
    handler.step(Event::Dialed);
    assert_eq!(
        handler.step(Event::LoopFinished(Direction::InboundToOutbound, Ok(3))),
        Action::Shutdown
    );
    let failure = RelayError::Read("connection reset");
    let action = handler.step(Event::LoopFinished(Direction::OutboundToInbound, Err(failure)));
    assert_eq!(action, Action::Close(Err(ProxyError::Relay(RelayError::Read("connection reset")))));
    assert_eq!(handler, ConnectionHandler::Closed { succeeded: false });
}

#[test]
fn repeated_report_of_one_direction_changes_nothing() {
    let mut handler = ConnectionHandler::new();
    handler.step(Event::Dialed);
    handler.step(Event::LoopFinished(Direction::InboundToOutbound, Ok(3)));
    let before = handler;
    assert_eq!(
        handler.step(Event::LoopFinished(Direction::InboundToOutbound, Ok(3))),
        Action::Nothing
    );
    assert_eq!(
        handler.step(Event::LoopFinished(
            Direction::InboundToOutbound,
            Err(RelayError::Read("late"))
        )),
        Action::Nothing
    );
    assert_eq!(handler, before);
}

#[test]
fn closed_handler_ignores_what_comes_later() {
    let mut handler = ConnectionHandler::new();
    handler.step(Event::Dialed);
    handler.step(Event::LoopFinished(
        Direction::InboundToOutbound,
        Err(RelayError::Write("broken pipe")),
    ));
    let closed = handler;
    assert_eq!(
        handler.step(Event::LoopFinished(Direction::OutboundToInbound, Ok(8))),
        Action::Nothing
    );
    assert_eq!(handler.step(Event::Dialed), Action::Nothing);
    assert_eq!(handler.step(Event::DialFailed("late")), Action::Nothing);
    assert_eq!(handler, closed);
}

#[test]
fn loop_report_before_the_dial_is_ignored() {
    let mut handler = ConnectionHandler::new();
    assert_eq!(
        handler.step(Event::LoopFinished(Direction::InboundToOutbound, Ok(1))),
        Action::Nothing
    );
    assert_eq!(handler, ConnectionHandler::Dialing);
}

#[test]
fn second_dial_report_is_ignored() {
    let mut handler = ConnectionHandler::new();
    handler.step(Event::Dialed);
    assert_eq!(handler.step(Event::Dialed), Action::Nothing);
    assert_eq!(handler.step(Event::DialFailed("late")), Action::Nothing);
    assert_eq!(handler, ConnectionHandler::Relaying { finished: None });
}

#[test]
fn opposite_of_a_direction() {
    assert_eq!(Direction::InboundToOutbound.opposite(), Direction::OutboundToInbound);
    assert_eq!(Direction::OutboundToInbound.opposite(), Direction::InboundToOutbound);
}

#[test]
fn relay_pair_wires_each_source_to_the_other_connection() {
    let waker = noop_waker();
    let mut cx = Context::from_waker(&waker);
    let pair = RelayPair::new(String::from("inbound"), String::from("outbound"));
    assert!(!pair.inbound_read.is_holding());
    assert!(!pair.outbound_write.is_holding());
    let ((mut ri, mut wo), (mut ro, mut wi)) = pair.into_directions();

    assert_eq!(ri.poll_read(&mut cx), HalfStep::Perform(Operation::Read));
    assert_eq!(ri.connection_mut().as_str(), "inbound");
    ri.release();
    assert_eq!(wi.poll_write(&mut cx), HalfStep::Perform(Operation::Write));
    assert_eq!(wi.connection_mut().as_str(), "inbound");
    wi.release();
    assert_eq!(ro.poll_read(&mut cx), HalfStep::Perform(Operation::Read));
    assert_eq!(ro.connection_mut().as_str(), "outbound");
    ro.release();
    assert_eq!(wo.poll_write(&mut cx), HalfStep::Perform(Operation::Write));
    assert_eq!(wo.connection_mut().as_str(), "outbound");
    wo.release();
}

#[test]
fn closers_reach_the_connections_of_the_pair() {
    let waker = noop_waker();
    let mut cx = Context::from_waker(&waker);
    let pair = RelayPair::new(1u32, 2u32);
    let (mut close_inbound, mut close_outbound) = pair.closers();
    let ((mut ri, _wo), (_ro, _wi)) = pair.into_directions();

    assert_eq!(ri.poll_read(&mut cx), HalfStep::Perform(Operation::Read));
    // The inbound connection is in use: its closer has to wait.
    assert_eq!(close_inbound.poll_shutdown(&mut cx), HalfStep::Suspend);
    assert_eq!(close_outbound.poll_shutdown(&mut cx), HalfStep::Perform(Operation::Shutdown));
    assert_eq!(*close_outbound.connection_mut(), 2);
    close_outbound.release();
    ri.release();
    assert_eq!(close_inbound.poll_shutdown(&mut cx), HalfStep::Perform(Operation::Shutdown));
    assert_eq!(*close_inbound.connection_mut(), 1);
    close_inbound.release();
}
