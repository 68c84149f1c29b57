use ewebsock::{
    control_for_delivery, ws_connect, ws_receive, Frame, Options, WsEvent, WsMessage, WsReceiver,
};
use std::ops::ControlFlow;
use tokio::sync::mpsc::error::TryRecvError;

#[test]
fn default_options() {
    let o = Options::default();
    assert_eq!(o.max_incoming_frame_size, 64 * 1024 * 1024);
    assert_eq!(o.delay_blocking, std::time::Duration::from_millis(10));
    assert_eq!(o.frame_limit(), Some(64 * 1024 * 1024));
    let unlimited = Options { max_incoming_frame_size: usize::MAX, ..o };
    assert_eq!(unlimited.frame_limit(), None);
}

#[test]
fn sender_queues_messages_in_order() {
    let (mut sender, mut endpoint) = ws_connect("ws://example.com".to_string(), Options::default(), 5u8);
    assert_eq!(endpoint.url, "ws://example.com");
    assert_eq!(endpoint.on_event, 5u8);
    sender.send(WsMessage::Text("a".to_string()));
    sender.send(WsMessage::Binary(vec![1, 2]));
    assert!(matches!(endpoint.outgoing.try_recv(), Ok(WsMessage::Text(ref s)) if s == "a"));
    assert!(matches!(endpoint.outgoing.try_recv(), Ok(WsMessage::Binary(ref b)) if b == &vec![1u8, 2]));
    assert!(matches!(endpoint.outgoing.try_recv(), Err(TryRecvError::Empty)));
}

#[test]
fn close_is_idempotent_and_later_sends_do_nothing() {
    let (mut sender, mut endpoint) = ws_connect("ws://x".to_string(), Options::default(), ());
    sender.close();
    sender.close();
    sender.send(WsMessage::Text("lost".to_string()));
    assert!(matches!(endpoint.outgoing.try_recv(), Err(TryRecvError::Disconnected)));
}

#[test]
fn dropping_the_sender_closes_the_queue() {
    let (sender, mut endpoint) = ws_connect("ws://x".to_string(), Options::default(), ());
    drop(sender);
    assert!(matches!(endpoint.outgoing.try_recv(), Err(TryRecvError::Disconnected)));
}

#[test]
fn forgotten_sender_keeps_the_queue_open() {
    let (sender, mut endpoint) = ws_connect("ws://x".to_string(), Options::default(), ());
    sender.forget();
    assert!(matches!(endpoint.outgoing.try_recv(), Err(TryRecvError::Empty)));
    let mut receive_only = ws_receive("ws://y".to_string(), Options::default(), 1i32);
    assert_eq!(receive_only.url, "ws://y");
    assert!(matches!(receive_only.outgoing.try_recv(), Err(TryRecvError::Empty)));
}

#[test]
fn receiver_returns_events_in_order() {
    let (mut receiver, sink) = WsReceiver::new();
    assert!(receiver.try_recv().is_none());
    assert_eq!(sink.forward(WsEvent::Opened), ControlFlow::Continue(()));
    assert_eq!(sink.forward(WsEvent::Message(WsMessage::Text("m".to_string()))), ControlFlow::Continue(()));
    assert!(matches!(receiver.try_recv(), Some(WsEvent::Opened)));
    assert!(matches!(receiver.try_recv(), Some(WsEvent::Message(WsMessage::Text(ref s))) if s == "m"));
    assert!(receiver.try_recv().is_none());
}

#[test]
fn sink_asks_to_stop_once_the_receiver_is_gone() {
    let (receiver, sink) = WsReceiver::new();
    drop(receiver);
    assert_eq!(sink.forward(WsEvent::Closed), ControlFlow::Break(()));
}

#[test]
fn delivery_control() {
    assert_eq!(control_for_delivery(true), ControlFlow::Continue(()));
    assert_eq!(control_for_delivery(false), ControlFlow::Break(()));
}

#[test]
fn frames_and_messages_translate() {
    let f = Frame::from_message(WsMessage::Ping(vec![9]));
    assert!(matches!(f, Frame::Ping(ref b) if b == &vec![9u8]));
    assert!(matches!(Frame::Pong(vec![1]).into_message(), Some(WsMessage::Pong(_))));
    assert!(Frame::Close.into_message().is_none());
    assert!(Frame::Raw.into_message().is_none());
    assert_eq!(Frame::Text("héllo".to_string()).payload_len(), 6);
    assert_eq!(Frame::Close.payload_len(), 0);
    assert!(WsMessage::Text(String::new()).is_sendable());
    assert!(!WsMessage::Unknown(String::new()).is_sendable());
    assert!(WsEvent::Closed.is_terminal());
    assert!(WsEvent::Error(String::new()).is_terminal());
    assert!(!WsEvent::Opened.is_terminal());
}
