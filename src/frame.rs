//! Wire frames as the protocol layer reads and writes them, and their
//! translation to and from messages.
use vstd::prelude::*;
use vstd::utf8::encode_utf8;
use crate::message::WsMessage;

verus! {

/// A single unit of WebSocket data on the wire.
#[derive(Clone, Debug)]
pub enum Frame {
    /// A text frame.
    Text(String),
    /// A binary frame.
    Binary(Vec<u8>),
    /// A ping frame.
    Ping(Vec<u8>),
    /// A pong frame.
    Pong(Vec<u8>),
    /// A close frame.
    Close,
    /// A raw frame, which carries no message of its own.
    Raw,
}

/// The frame that carries a sendable message.
pub open spec fn frame_of(m: WsMessage) -> Frame
    recommends
        m.spec_is_sendable(),
{
    match m {
        WsMessage::Binary(b) => Frame::Binary(b),
        WsMessage::Text(s) => Frame::Text(s),
        WsMessage::Ping(b) => Frame::Ping(b),
        WsMessage::Pong(b) => Frame::Pong(b),
        WsMessage::Unknown(s) => Frame::Raw,
    }
}

/// The message that a frame carries, if any.
pub open spec fn message_of(f: Frame) -> Option<WsMessage> {
    match f {
        Frame::Text(s) => Some(WsMessage::Text(s)),
        Frame::Binary(b) => Some(WsMessage::Binary(b)),
        Frame::Ping(b) => Some(WsMessage::Ping(b)),
        Frame::Pong(b) => Some(WsMessage::Pong(b)),
        Frame::Close => None,
        Frame::Raw => None,
    }
}

/// The number of payload bytes of a frame.
pub open spec fn payload_len(f: Frame) -> nat {
    match f {
        Frame::Text(s) => encode_utf8(s@).len(),
        Frame::Binary(b) => b@.len(),
        Frame::Ping(b) => b@.len(),
        Frame::Pong(b) => b@.len(),
        Frame::Close => 0,
        Frame::Raw => 0,
    }
}

/// A sendable message comes back as itself from the frame that carries it.
pub proof fn lemma_frame_round_trip(m: WsMessage)
    requires
        m.spec_is_sendable(),
    ensures
        message_of(frame_of(m)) == Some(m),
        !(frame_of(m) is Close) && !(frame_of(m) is Raw),
{
}

impl Frame {
    /// The frame that carries `m`.
    pub fn from_message(m: WsMessage) -> (r: Frame)
        requires
            m.spec_is_sendable(),
        ensures
            r == frame_of(m),
    {
        match m {
            WsMessage::Binary(b) => Frame::Binary(b),
            WsMessage::Text(s) => Frame::Text(s),
            WsMessage::Ping(b) => Frame::Ping(b),
            WsMessage::Pong(b) => Frame::Pong(b),
            WsMessage::Unknown(_) => Frame::Raw,
        }
    }

    /// The message this frame carries: none for a close or raw frame.
    pub fn into_message(self) -> (r: Option<WsMessage>)
        ensures
            r == message_of(self),
    {
        match self {
            Frame::Text(s) => Some(WsMessage::Text(s)),
            Frame::Binary(b) => Some(WsMessage::Binary(b)),
            Frame::Ping(b) => Some(WsMessage::Ping(b)),
            Frame::Pong(b) => Some(WsMessage::Pong(b)),
            Frame::Close => None,
            Frame::Raw => None,
        }
    }

    /// The number of payload bytes.
    pub fn payload_len(&self) -> (r: usize)
        ensures
            r == payload_len(*self),
    {
        match self {
            Frame::Text(s) => s.as_str().as_bytes().len(),
            Frame::Binary(b) => b.len(),
            Frame::Ping(b) => b.len(),
            Frame::Pong(b) => b.len(),
            Frame::Close => 0,
            Frame::Raw => 0,
        }
    }
}

} // verus!
