//! Payloads and lifecycle signals of a connection.
use vstd::prelude::*;

verus! {

/// An error: a human-readable description.
pub type Error = String;

/// Short for `Result<T, Error>`.
pub type Result<T> = std::result::Result<T, Error>;

/// A web-socket message.
#[derive(Clone, Debug)]
pub enum WsMessage {
    /// Binary message.
    Binary(Vec<u8>),
    /// Text message.
    Text(String),
    /// Incoming message of unknown type. It cannot be sent.
    Unknown(String),
    /// Ping message with its payload.
    Ping(Vec<u8>),
    /// Pong message with its payload.
    Pong(Vec<u8>),
}

/// Something happening with the connection.
#[derive(Clone, Debug)]
pub enum WsEvent {
    /// The connection has been established, and messages can be sent.
    Opened,
    /// A message has been received.
    Message(WsMessage),
    /// An error occurred.
    Error(String),
    /// The connection has been closed.
    Closed,
}

impl WsMessage {
    /// A message that may be handed to a sender: every kind but `Unknown`.
    pub open spec fn spec_is_sendable(&self) -> bool {
        !(self is Unknown)
    }

    /// Whether this message may be sent.
    pub fn is_sendable(&self) -> (r: bool)
        ensures
            r == self.spec_is_sendable(),
    {
        !matches!(self, WsMessage::Unknown(_))
    }
}

impl WsEvent {
    /// An event after which no other event follows.
    pub open spec fn spec_is_terminal(&self) -> bool {
        self is Error || self is Closed
    }

    /// Whether no event can follow this one.
    pub fn is_terminal(&self) -> (r: bool)
        ensures
            r == self.spec_is_terminal(),
    {
        matches!(self, WsEvent::Error(_) | WsEvent::Closed)
    }
}

} // verus!
