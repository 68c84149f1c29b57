//! The sending and receiving handles, and the queues that join them to the
//! transport task.
//!
//! Both directions use tokio's unbounded channels: handing a message over
//! never blocks and keeps the order of the calls.
use vstd::prelude::*;
use std::ops::ControlFlow;
use tokio::sync::mpsc::{UnboundedReceiver, UnboundedSender};
use crate::message::{WsEvent, WsMessage};
use crate::options::Options;

verus! {

#[verifier::external_type_specification]
#[verifier::external_body]
#[verifier::reject_recursive_types(T)]
pub struct ExUnboundedSender<T>(tokio::sync::mpsc::UnboundedSender<T>);

#[verifier::external_type_specification]
#[verifier::external_body]
#[verifier::reject_recursive_types(T)]
pub struct ExUnboundedReceiver<T>(tokio::sync::mpsc::UnboundedReceiver<T>);

/// The messages handed to a sending half of an outgoing channel so far, in
/// the order they were handed over.
pub uninterp spec fn handed(tx: UnboundedSender<WsMessage>) -> Seq<WsMessage>;

/// Relies on `tokio::sync::mpsc::unbounded_channel`: a new channel, into
/// which nothing has been handed yet. It cannot fail.
#[verifier::external_body]
fn outgoing_channel() -> (r: (UnboundedSender<WsMessage>, UnboundedReceiver<WsMessage>))
    ensures
        handed(r.0) == Seq::<WsMessage>::empty(),
{
    tokio::sync::mpsc::unbounded_channel()
}

/// Relies on `UnboundedSender::send`: hands the value over without blocking,
/// after every value handed over before; the channel keeps them in that order.
/// It is dropped only when the receiving half is gone.
#[verifier::external_body]
fn queue_message(tx: &mut UnboundedSender<WsMessage>, value: WsMessage)
    ensures
        handed(*final(tx)) == handed(*old(tx)).push(value),
{
    let _ = tx.send(value);
}

/// Relies on `UnboundedSender::send`: queues the event without blocking, and
/// fails only when the receiving half is gone. Whether it is gone depends on
/// the other side, so nothing is said of the result.
#[verifier::external_body]
fn queue_event(tx: &UnboundedSender<WsEvent>, value: WsEvent) -> (accepted: bool) {
    tx.send(value).is_ok()
}

/// Relies on `tokio::sync::mpsc::unbounded_channel`: a new channel for
/// events. It cannot fail.
#[verifier::external_body]
fn event_channel() -> (UnboundedSender<WsEvent>, UnboundedReceiver<WsEvent>) {
    tokio::sync::mpsc::unbounded_channel()
}

/// Relies on `UnboundedReceiver::try_recv`: the oldest queued value, if any,
/// without blocking. What is queued depends on the other side.
#[verifier::external_body]
fn channel_try_recv<T>(rx: &mut UnboundedReceiver<T>) -> Option<T> {
    rx.try_recv().ok()
}

/// Relies on `std::mem::forget`: the value is never dropped.
#[verifier::external_body]
fn leak<T>(value: T) {
    std::mem::forget(value)
}

/// This is how messages are sent to the server.
///
/// When this is dropped, the connection is closed.
pub struct WsSender {
    tx: Option<UnboundedSender<WsMessage>>,
    sent: Ghost<Seq<WsMessage>>,
}

impl WsSender {
    /// Whether messages are still handed to the connection.
    pub closed spec fn is_open(&self) -> bool {
        self.tx is Some
    }

    /// The messages handed to the connection so far, in call order.
    pub closed spec fn spec_sent(&self) -> Seq<WsMessage> {
        match self.tx {
            Some(tx) => handed(tx),
            None => self.sent@,
        }
    }

    /// Sends a message: queues it for the connection, in call order. After
    /// `close` this does nothing.
    ///
    /// Wait for `WsEvent::Opened` before sending. A message of kind `Unknown`
    /// cannot be sent.
    pub fn send(&mut self, msg: WsMessage)
        requires
            msg.spec_is_sendable(),
        ensures
            final(self).is_open() == old(self).is_open(),
            old(self).is_open() ==> final(self).spec_sent() == old(self).spec_sent().push(msg),
            !old(self).is_open() ==> final(self).spec_sent() == old(self).spec_sent(),
    {
        match self.tx.take() {
            Some(tx) => {
                let mut tx = tx;
                queue_message(&mut tx, msg);
                self.tx = Some(tx);
            },
            None => {},
        }
    }

    /// Closes the connection. Doing it again does nothing.
    ///
    /// This is done automatically when the sender is dropped.
    pub fn close(&mut self)
        ensures
            !final(self).is_open(),
            final(self).spec_sent() == old(self).spec_sent(),
        opens_invariants none
        no_unwind
    {
        if let Some(tx) = &self.tx {
            self.sent = Ghost(handed(*tx));
        }
        self.tx = None;
    }

    /// Forgets this sender without closing the connection: it stays open for
    /// as long as the process runs.
    pub fn forget(self) {
        let mut this = self;
        leak(this.tx.take());
    }
}

impl Drop for WsSender {
    fn drop(&mut self)
        opens_invariants none
        no_unwind
    {
        self.close();
    }
}

/// The side of the event queue that the transport task fills.
pub struct EventSink {
    tx: UnboundedSender<WsEvent>,
}

impl EventSink {
    /// Queues an event for the receiver, and says whether the connection is
    /// to go on (see `control_for_delivery`).
    pub fn forward(&self, event: WsEvent) -> ControlFlow<()> {
        control_for_delivery(queue_event(&self.tx, event))
    }
}

/// What the event handler answers once an event was or was not queued: go on
/// while the receiver takes events, stop once it is gone.
pub fn control_for_delivery(queued: bool) -> (r: ControlFlow<()>)
    ensures
        queued ==> r == ControlFlow::<(), ()>::Continue(()),
        !queued ==> r == ControlFlow::<(), ()>::Break(()),
{
    if queued {
        ControlFlow::Continue(())
    } else {
        ControlFlow::Break(())
    }
}

/// Receiver for incoming events.
pub struct WsReceiver {
    rx: UnboundedReceiver<WsEvent>,
}

impl WsReceiver {
    /// A receiver, and the sink whose events it will return.
    pub fn new() -> (Self, EventSink) {
        let (tx, rx) = event_channel();
        (WsReceiver { rx }, EventSink { tx })
    }

    /// Tries to receive the next event, in the order they were queued,
    /// without blocking.
    pub fn try_recv(&mut self) -> Option<WsEvent> {
        channel_try_recv(&mut self.rx)
    }
}

/// Everything the transport task needs to run one connection.
pub struct Endpoint<H> {
    /// Where to connect.
    pub url: String,
    /// The options captured when connecting.
    pub options: Options,
    /// The messages handed to the matching sender, in call order.
    pub outgoing: UnboundedReceiver<WsMessage>,
    /// Called on each event of the connection.
    pub on_event: H,
}

/// Prepares a connection: the sender for the caller, and the endpoint that the
/// transport task runs.
pub fn ws_connect<H>(url: String, options: Options, on_event: H) -> (r: (WsSender, Endpoint<H>))
    ensures
        r.0.is_open(),
        r.0.spec_sent() == Seq::<WsMessage>::empty(),
        r.1.url == url,
        r.1.options == options,
        r.1.on_event == on_event,
{
    let (tx, rx) = outgoing_channel();
    let sender = WsSender { tx: Some(tx), sent: Ghost(Seq::empty()) };
    (sender, Endpoint { url, options, outgoing: rx, on_event })
}

/// Prepares a receive-only connection: the sender is forgotten, so the
/// connection stays open although nothing can be sent on it.
pub fn ws_receive<H>(url: String, options: Options, on_event: H) -> (r: Endpoint<H>)
    ensures
        r.url == url,
        r.options == options,
        r.on_event == on_event,
{
    let (sender, endpoint) = ws_connect(url, options, on_event);
    sender.forget();
    endpoint
}

} // verus!
