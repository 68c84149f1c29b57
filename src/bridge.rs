//! The connection state machine that sits between the transport task and the
//! event handler.
//!
//! The task that owns the socket reports what happens (the handshake ends, a
//! frame arrives, reading or writing fails, a message waits to be sent, the sender
//! goes away, the handler asks to stop) as an [`Input`]; [`Connection::step`]
//! answers with the one [`Action`] to perform: deliver an event to the handler,
//! write a frame, or nothing. Once [`Connection::is_finished`] holds, the task
//! drops the socket.
//!
//! Policies fixed here:
//! - a stop request from the handler is honoured at once: no event is
//!   delivered after it;
//! - a message of kind `Unknown` is never written: it is rejected with an
//!   `Error` event, which ends the connection;
//! - the machine sees whole messages, so the size limit bounds each incoming
//!   message (and with it each frame): one over the limit ends the
//!   connection with an `Error` event;
//! - when the sender goes away, a close frame is written and the connection
//!   ends at once with a `Closed` event, without waiting for the peer.
use vstd::prelude::*;
use crate::frame::{Frame, frame_of, message_of, payload_len};
use crate::message::{WsEvent, WsMessage};
use crate::options::Options;

verus! {

/// Where a connection stands.
#[derive(Clone, Copy, Debug, PartialEq, Eq, Structural)]
pub enum Phase {
    /// The handshake is in flight.
    Connecting,
    /// The handshake succeeded; frames flow both ways.
    Open,
    /// The connection ended normally.
    Closed,
    /// The connection ended on an error.
    Errored,
}

impl Phase {
    /// A phase that no input leaves.
    pub open spec fn spec_is_terminal(self) -> bool {
        self is Closed || self is Errored
    }
}

/// What the transport task reports.
#[derive(Debug)]
pub enum Input {
    /// The handshake completed.
    HandshakeDone,
    /// The handshake failed, with a description.
    HandshakeFailed(String),
    /// A frame was read.
    Received(Frame),
    /// Reading or writing failed, with a description.
    TransportFailed(String),
    /// The sender handed over a message.
    Send(WsMessage),
    /// The sender was closed or dropped: no more messages will come.
    SenderClosed,
    /// The event handler asked to stop.
    Stop,
}

/// What the transport task is to do next.
#[derive(Debug)]
pub enum Action {
    /// Hand this event to the event handler.
    Deliver(WsEvent),
    /// Write this frame to the socket.
    Write(Frame),
    /// Write a close frame, then hand `Closed` to the event handler.
    Shutdown,
    /// Nothing.
    Idle,
}

/// The state of one connection.
pub struct Connection {
    phase: Phase,
    limit: usize,
    too_large: String,
    unsendable: String,
}

/// What a connection's state is, as contracts see it.
pub struct ConnState {
    /// The current phase.
    pub phase: Phase,
    /// The largest payload accepted in an incoming message, in bytes.
    pub limit: usize,
    /// The description carried by the error for an oversized message.
    pub too_large: String,
    /// The description carried by the error for a message that cannot be sent.
    pub unsendable: String,
}

impl ConnState {
    /// The same state in another phase.
    pub open spec fn with_phase(self, p: Phase) -> ConnState {
        ConnState { phase: p, ..self }
    }
}

/// The description of the error that an oversized incoming message causes.
pub open spec fn too_large_text() -> Seq<char> {
    "incoming message exceeds the size limit"@
}

/// The description of the error that sending an `Unknown` message causes.
pub open spec fn unsendable_text() -> Seq<char> {
    "a message of unknown kind cannot be sent"@
}

impl View for Connection {
    type V = ConnState;

    closed spec fn view(&self) -> ConnState {
        ConnState {
            phase: self.phase,
            limit: self.limit,
            too_large: self.too_large,
            unsendable: self.unsendable,
        }
    }
}

impl Connection {
    /// A fresh connection, waiting for the handshake.
    pub fn new(options: &Options) -> (r: Connection)
        ensures
            r@.phase == Phase::Connecting,
            r@.limit == options.max_incoming_frame_size,
            r@.too_large@ == too_large_text(),
            r@.unsendable@ == unsendable_text(),
    {
        Connection {
            phase: Phase::Connecting,
            limit: options.max_incoming_frame_size,
            too_large: String::from_str("incoming message exceeds the size limit"),
            unsendable: String::from_str("a message of unknown kind cannot be sent"),
        }
    }

    /// The current phase.
    pub fn phase(&self) -> (r: Phase)
        ensures
            r == self@.phase,
    {
        self.phase
    }

    /// Whether the connection has ended, so that the socket can be dropped.
    pub fn is_finished(&self) -> (r: bool)
        ensures
            r == self@.phase.spec_is_terminal(),
    {
        matches!(self.phase, Phase::Closed | Phase::Errored)
    }
}

/// One transition: the next state and the action, for every state and input.
pub open spec fn next(c: ConnState, i: Input) -> (ConnState, Action) {
    let idle = (c, Action::Idle);
    match i {
        Input::HandshakeDone => if c.phase is Connecting {
            (c.with_phase(Phase::Open), Action::Deliver(WsEvent::Opened))
        } else {
            idle
        },
        Input::HandshakeFailed(d) => if c.phase is Connecting {
            (c.with_phase(Phase::Errored), Action::Deliver(WsEvent::Error(d)))
        } else {
            idle
        },
        Input::Received(f) => if c.phase is Open {
            if payload_len(f) > c.limit {
                (c.with_phase(Phase::Errored), Action::Deliver(WsEvent::Error(c.too_large)))
            } else if f is Close {
                (c.with_phase(Phase::Closed), Action::Deliver(WsEvent::Closed))
            } else {
                match message_of(f) {
                    Some(m) => (c, Action::Deliver(WsEvent::Message(m))),
                    None => idle,
                }
            }
        } else {
            idle
        },
        Input::TransportFailed(d) => if c.phase is Open {
            (c.with_phase(Phase::Errored), Action::Deliver(WsEvent::Error(d)))
        } else {
            idle
        },
        Input::Send(m) => if c.phase is Open {
            if m.spec_is_sendable() {
                (c, Action::Write(frame_of(m)))
            } else {
                (c.with_phase(Phase::Errored), Action::Deliver(WsEvent::Error(c.unsendable)))
            }
        } else {
            idle
        },
        Input::SenderClosed => if c.phase is Open {
            (c.with_phase(Phase::Closed), Action::Shutdown)
        } else if c.phase is Connecting {
            (c.with_phase(Phase::Closed), Action::Idle)
        } else {
            idle
        },
        Input::Stop => if c.phase is Open {
            (c.with_phase(Phase::Closed), Action::Write(Frame::Close))
        } else if c.phase is Connecting {
            (c.with_phase(Phase::Closed), Action::Idle)
        } else {
            idle
        },
    }
}

impl Connection {
    /// Takes one input and returns the action to perform.
    pub fn step(&mut self, i: Input) -> (a: Action)
        ensures
            (final(self)@, a) == next(old(self)@, i),
    {
        let open = matches!(self.phase, Phase::Open);
        let connecting = matches!(self.phase, Phase::Connecting);
        match i {
            Input::HandshakeDone => {
                if connecting {
                    self.phase = Phase::Open;
                    Action::Deliver(WsEvent::Opened)
                } else {
                    Action::Idle
                }
            },
            Input::HandshakeFailed(d) => {
                if connecting {
                    self.phase = Phase::Errored;
                    Action::Deliver(WsEvent::Error(d))
                } else {
                    Action::Idle
                }
            },
            Input::Received(f) => {
                if !open {
                    Action::Idle
                } else if f.payload_len() > self.limit {
                    self.phase = Phase::Errored;
                    Action::Deliver(WsEvent::Error(self.too_large.clone()))
                } else if matches!(f, Frame::Close) {
                    self.phase = Phase::Closed;
                    Action::Deliver(WsEvent::Closed)
                } else {
                    match f.into_message() {
                        Some(m) => Action::Deliver(WsEvent::Message(m)),
                        None => Action::Idle,
                    }
                }
            },
            Input::TransportFailed(d) => {
                if open {
                    self.phase = Phase::Errored;
                    Action::Deliver(WsEvent::Error(d))
                } else {
                    Action::Idle
                }
            },
            Input::Send(m) => {
                if !open {
                    Action::Idle
                } else if m.is_sendable() {
                    Action::Write(Frame::from_message(m))
                } else {
                    self.phase = Phase::Errored;
                    Action::Deliver(WsEvent::Error(self.unsendable.clone()))
                }
            },
            Input::SenderClosed => {
                if open {
                    self.phase = Phase::Closed;
                    Action::Shutdown
                } else if connecting {
                    self.phase = Phase::Closed;
                    Action::Idle
                } else {
                    Action::Idle
                }
            },
            Input::Stop => {
                if open {
                    self.phase = Phase::Closed;
                    Action::Write(Frame::Close)
                } else if connecting {
                    self.phase = Phase::Closed;
                    Action::Idle
                } else {
                    Action::Idle
                }
            },
        }
    }
}

} // verus!
