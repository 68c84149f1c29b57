//! A WebSocket client core: the message and event model, the connection state
//! machine that turns transport happenings into events and frames, and the
//! sending and receiving handles that bridge a background transport task to
//! code that polls.
use vstd::prelude::*;

pub mod message;
pub mod options;
pub mod frame;
pub mod bridge;
pub mod lifecycle;
pub mod channel;

pub use message::{Error, Result, WsEvent, WsMessage};
pub use options::Options;
pub use frame::Frame;
pub use bridge::{Action, ConnState, Connection, Input, Phase};
pub use channel::{control_for_delivery, ws_connect, ws_receive, Endpoint, EventSink, WsReceiver, WsSender};
