//! Connection handler state machine: Handshaking, then Open, then Closing,
//! then Closed.  The host's receive loop feeds each event in and performs
//! the returned action; every decision stands here.

use vstd::prelude::*;

verus! {

use crate::codec::{decode, DecodeError};
use crate::json::{disc_of, parses_to_object};
use crate::router::{emits_event, route, routed_event_matches, AppEvent};

/// The lifecycle states of one connection.  Closed is terminal.
#[derive(Clone, Copy, PartialEq, Eq, Structural, Debug)]
pub enum ConnState {
    Handshaking,
    Open,
    Closing,
    Closed,
}

/// One inbound frame, as the transport hands it to the handler.
#[derive(Debug)]
pub enum Frame {
    Text(String),
    Ping(Vec<u8>),
    /// A close frame from the peer.
    CloseRequest,
    /// Any other frame kind; ignored.
    Other,
}

/// What happened on the connection.
#[derive(Debug)]
pub enum ConnEvent {
    /// The transport-level upgrade handshake completed.
    HandshakeOk,
    /// The handshake failed; the connection was never registered.
    HandshakeFailed,
    FrameReceived(Frame),
    /// A transport read error; a normal path to Closing.
    ReadError,
    /// A write on this connection's handle failed.
    SendFailed,
    /// The server asked this connection to close.
    Shutdown,
    /// The handler finished its teardown.
    TeardownDone,
}

/// What the handler must do on a transition.
#[derive(Debug)]
pub enum ConnAction {
    /// Register the connection and emit client-connected.
    Register,
    /// Emit this event to the hosting application.
    Emit(AppEvent),
    /// Log the decode error; the connection stays open.
    ReportDecodeError(DecodeError),
    /// Answer a ping with a pong carrying the same payload.
    Pong(Vec<u8>),
    /// Unregister the connection and emit client-disconnected.
    Teardown,
    Nothing,
}

/// The state after an event.  A text frame never moves the connection out
/// of Open, whatever it holds: decode errors are recoverable.
pub open spec fn next_conn_state(s: ConnState, e: ConnEvent) -> ConnState {
    match s {
        ConnState::Handshaking => match e {
            ConnEvent::HandshakeOk => ConnState::Open,
            ConnEvent::HandshakeFailed => ConnState::Closed,
            _ => ConnState::Handshaking,
        },
        ConnState::Open => match e {
            ConnEvent::FrameReceived(f) => if f is CloseRequest {
                ConnState::Closing
            } else {
                ConnState::Open
            },
            ConnEvent::ReadError => ConnState::Closing,
            ConnEvent::SendFailed => ConnState::Closing,
            ConnEvent::Shutdown => ConnState::Closing,
            _ => ConnState::Open,
        },
        ConnState::Closing => match e {
            ConnEvent::TeardownDone => ConnState::Closed,
            _ => ConnState::Closing,
        },
        ConnState::Closed => ConnState::Closed,
    }
}

/// Steps one connection by one event.
///
/// In Open, a text frame is decoded and routed: a routed message is
/// emitted, a heartbeat or unknown discriminator is dropped, and malformed
/// text is only reported — none of these closes the connection.  A ping is
/// answered by a pong with the same payload.  A close frame, a read error,
/// a failed send or a server shutdown begins the teardown, which
/// unregisters the connection; a failed handshake ends it without ever
/// registering.
pub fn conn_step(state: ConnState, client_id: &str, event: ConnEvent) -> (r: (
    ConnState,
    ConnAction,
))
    ensures
        r.0 == next_conn_state(state, event),
        state == ConnState::Handshaking && event is HandshakeOk ==> r.1 is Register,
        state == ConnState::Handshaking && !(event is HandshakeOk) ==> r.1 is Nothing,
        state == ConnState::Open ==> match event {
            ConnEvent::FrameReceived(Frame::Text(t)) => match r.1 {
                ConnAction::Emit(ev) => disc_of(t@) matches Some(d) && parses_to_object(t@)
                    && emits_event(d) && routed_event_matches(d, client_id@, ev),
                ConnAction::ReportDecodeError(e) => (e == DecodeError::MalformedPayload
                    <==> !parses_to_object(t@)) && (e == DecodeError::MissingDiscriminator
                    <==> parses_to_object(t@) && disc_of(t@) is None),
                ConnAction::Nothing => disc_of(t@) matches Some(d) && parses_to_object(t@)
                    && !emits_event(d),
                _ => false,
            },
            ConnEvent::FrameReceived(Frame::Ping(d)) => r.1 matches ConnAction::Pong(p) && p@
                == d@,
            ConnEvent::FrameReceived(Frame::CloseRequest) => r.1 is Teardown,
            ConnEvent::FrameReceived(Frame::Other) => r.1 is Nothing,
            ConnEvent::ReadError => r.1 is Teardown,
            ConnEvent::SendFailed => r.1 is Teardown,
            ConnEvent::Shutdown => r.1 is Teardown,
            _ => r.1 is Nothing,
        },
        state == ConnState::Closing || state == ConnState::Closed ==> r.1 is Nothing,
{
    match state {
        ConnState::Handshaking => match event {
            ConnEvent::HandshakeOk => (ConnState::Open, ConnAction::Register),
            ConnEvent::HandshakeFailed => (ConnState::Closed, ConnAction::Nothing),
            _ => (ConnState::Handshaking, ConnAction::Nothing),
        },
        ConnState::Open => match event {
            ConnEvent::FrameReceived(f) => match f {
                Frame::Text(t) => {
                    proof {
                        reveal_strlit("register-widgets");
                        reveal_strlit("widget-update");
                        reveal_strlit("unregister-widgets");
                        reveal_strlit("heartbeat");
                    }
                    let action = match decode(t.as_str()) {
                        Ok(m) => match route(client_id, m) {
                            Some(ev) => ConnAction::Emit(ev),
                            None => ConnAction::Nothing,
                        },
                        Err(e) => ConnAction::ReportDecodeError(e),
                    };
                    (ConnState::Open, action)
                },
                Frame::Ping(d) => (ConnState::Open, ConnAction::Pong(d)),
                Frame::CloseRequest => (ConnState::Closing, ConnAction::Teardown),
                Frame::Other => (ConnState::Open, ConnAction::Nothing),
            },
            ConnEvent::ReadError => (ConnState::Closing, ConnAction::Teardown),
            ConnEvent::SendFailed => (ConnState::Closing, ConnAction::Teardown),
            ConnEvent::Shutdown => (ConnState::Closing, ConnAction::Teardown),
            _ => (ConnState::Open, ConnAction::Nothing),
        },
        ConnState::Closing => match event {
            ConnEvent::TeardownDone => (ConnState::Closed, ConnAction::Nothing),
            _ => (ConnState::Closing, ConnAction::Nothing),
        },
        ConnState::Closed => (ConnState::Closed, ConnAction::Nothing),
    }
}

} // verus!
