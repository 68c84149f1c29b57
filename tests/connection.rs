use ewebsock::{Action, Connection, Frame, Input, Options, Phase, WsEvent, WsMessage};

fn open_connection(options: &Options) -> Connection {
    let mut c = Connection::new(options);
    assert!(matches!(c.step(Input::HandshakeDone), Action::Deliver(WsEvent::Opened)));
    c
}

#[test]
fn echo_scenario_delivers_opened_message_then_closed() {
    let mut c = Connection::new(&Options::default());
    assert_eq!(c.phase(), Phase::Connecting);
    assert!(matches!(c.step(Input::HandshakeDone), Action::Deliver(WsEvent::Opened)));
    let w = c.step(Input::Send(WsMessage::Text("hi".to_string())));
    assert!(matches!(w, Action::Write(Frame::Text(ref s)) if s == "hi"));
    let e = c.step(Input::Received(Frame::Text("hi".to_string())));
    assert!(matches!(e, Action::Deliver(WsEvent::Message(WsMessage::Text(ref s))) if s == "hi"));
    assert!(!c.is_finished());
    assert!(matches!(c.step(Input::SenderClosed), Action::Shutdown));
    assert_eq!(c.phase(), Phase::Closed);
    assert!(c.is_finished());
    assert!(matches!(c.step(Input::Received(Frame::Close)), Action::Idle));
    assert!(matches!(c.step(Input::Received(Frame::Text("x".to_string()))), Action::Idle));
    assert!(matches!(c.step(Input::TransportFailed("gone".to_string())), Action::Idle));
}

#[test]
fn refused_handshake_yields_one_error_and_nothing_else() {
    let mut c = Connection::new(&Options::default());
    let e = c.step(Input::HandshakeFailed("refused".to_string()));
    assert!(matches!(e, Action::Deliver(WsEvent::Error(ref d)) if d == "refused"));
    assert!(c.is_finished());
    assert_eq!(c.phase(), Phase::Errored);
    assert!(matches!(c.step(Input::HandshakeDone), Action::Idle));
    assert!(matches!(c.step(Input::Received(Frame::Text("x".to_string()))), Action::Idle));
    assert!(matches!(c.step(Input::SenderClosed), Action::Idle));
    assert!(matches!(c.step(Input::Stop), Action::Idle));
}

#[test]
fn oversized_frame_is_rejected_with_an_error() {
    let options = Options { max_incoming_frame_size: 10, ..Options::default() };
    let mut c = open_connection(&options);
    let e = c.step(Input::Received(Frame::Text("a".repeat(100))));
    assert!(matches!(e, Action::Deliver(WsEvent::Error(ref d)) if d == "incoming message exceeds the size limit"));
    assert_eq!(c.phase(), Phase::Errored);
    assert!(matches!(c.step(Input::Received(Frame::Text("ok".to_string()))), Action::Idle));
}

#[test]
fn frame_at_the_limit_is_accepted() {
    let options = Options { max_incoming_frame_size: 10, ..Options::default() };
    let mut c = open_connection(&options);
    let e = c.step(Input::Received(Frame::Binary(vec![7u8; 10])));
    assert!(matches!(e, Action::Deliver(WsEvent::Message(WsMessage::Binary(ref b))) if b.len() == 10));
    // five two-byte characters: ten bytes
    let e = c.step(Input::Received(Frame::Text("ééééé".to_string())));
    assert!(matches!(e, Action::Deliver(WsEvent::Message(_))));
    let e = c.step(Input::Received(Frame::Text("éééééé".to_string())));
    assert!(matches!(e, Action::Deliver(WsEvent::Error(_))));
}

#[test]
fn sends_are_written_in_call_order() {
    let mut c = open_connection(&Options::default());
    let msgs = vec![
        WsMessage::Text("one".to_string()),
        WsMessage::Binary(vec![2]),
        WsMessage::Ping(vec![3]),
        WsMessage::Pong(vec![4]),
    ];
    let mut frames = Vec::new();
    for m in msgs {
        if let Action::Write(f) = c.step(Input::Send(m)) {
            frames.push(f);
        }
        c.step(Input::Received(Frame::Text("between".to_string())));
    }
    assert_eq!(frames.len(), 4);
    assert!(matches!(frames[0], Frame::Text(ref s) if s == "one"));
    assert!(matches!(frames[1], Frame::Binary(ref b) if b == &vec![2u8]));
    assert!(matches!(frames[2], Frame::Ping(ref b) if b == &vec![3u8]));
    assert!(matches!(frames[3], Frame::Pong(ref b) if b == &vec![4u8]));
}

#[test]
fn opened_only_once_and_first() {
    let mut c = Connection::new(&Options::default());
    assert!(matches!(c.step(Input::Received(Frame::Text("early".to_string()))), Action::Idle));
    assert!(matches!(c.step(Input::HandshakeDone), Action::Deliver(WsEvent::Opened)));
    assert!(matches!(c.step(Input::HandshakeDone), Action::Idle));
    assert!(matches!(c.step(Input::HandshakeFailed("late".to_string())), Action::Idle));
}

#[test]
fn nothing_after_a_read_error() {
    let mut c = open_connection(&Options::default());
    let e = c.step(Input::TransportFailed("reset".to_string()));
    assert!(matches!(e, Action::Deliver(WsEvent::Error(ref d)) if d == "reset"));
    assert!(matches!(c.step(Input::Received(Frame::Close)), Action::Idle));
    assert!(matches!(c.step(Input::Send(WsMessage::Text("x".to_string()))), Action::Idle));
}

#[test]
fn peer_close_ends_an_open_connection() {
    let mut c = open_connection(&Options::default());
    assert!(matches!(c.step(Input::Received(Frame::Close)), Action::Deliver(WsEvent::Closed)));
    assert_eq!(c.phase(), Phase::Closed);
}

#[test]
fn unknown_message_is_never_written() {
    let mut c = open_connection(&Options::default());
    let e = c.step(Input::Send(WsMessage::Unknown("?".to_string())));
    assert!(matches!(e, Action::Deliver(WsEvent::Error(ref d)) if d == "a message of unknown kind cannot be sent"));
    assert_eq!(c.phase(), Phase::Errored);
    assert!(matches!(c.step(Input::Send(WsMessage::Text("x".to_string()))), Action::Idle));
    let mut d = Connection::new(&Options::default());
    assert!(matches!(d.step(Input::Send(WsMessage::Unknown("?".to_string()))), Action::Idle));
    assert_eq!(d.phase(), Phase::Connecting);
}

#[test]
fn raw_frames_deliver_nothing() {
    let mut c = open_connection(&Options::default());
    assert!(matches!(c.step(Input::Received(Frame::Raw)), Action::Idle));
    assert_eq!(c.phase(), Phase::Open);
}

#[test]
fn stop_request_is_honoured() {
    let mut c = open_connection(&Options::default());
    assert!(matches!(c.step(Input::Stop), Action::Write(Frame::Close)));
    assert!(c.is_finished());
    assert!(matches!(c.step(Input::Received(Frame::Text("x".to_string()))), Action::Idle));
    let mut d = Connection::new(&Options::default());
    assert!(matches!(d.step(Input::Stop), Action::Idle));
    assert_eq!(d.phase(), Phase::Closed);
}

#[test]
fn sender_gone_while_connecting_ends_the_connection() {
    let mut c = Connection::new(&Options::default());
    assert!(matches!(c.step(Input::SenderClosed), Action::Idle));
    assert_eq!(c.phase(), Phase::Closed);
    assert!(matches!(c.step(Input::HandshakeDone), Action::Idle));
}

#[test]
fn sender_gone_ends_the_connection_without_the_peer() {
    let mut c = open_connection(&Options::default());
    c.step(Input::Send(WsMessage::Text("last".to_string())));
    assert!(matches!(c.step(Input::SenderClosed), Action::Shutdown));
    assert!(c.is_finished());
    assert!(matches!(c.step(Input::TransportFailed("eof".to_string())), Action::Idle));
    assert!(matches!(c.step(Input::Stop), Action::Idle));
}
