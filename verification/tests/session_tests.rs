use ws_session::dispatch::{DispatchStep, Notification, PingReply};
use ws_session::error::WebSocketError;
use ws_session::frame::{Frame, MessageData};
use ws_session::session::{
    CloseOutcome, EstablishStage, PingOutcome, PongOutcome, SendOutcome, SessionState, WebSocket,
    WebSocketConfig,
};

fn open_session() -> WebSocket {
    let mut ws = WebSocket::new(String::from("wss://example.test/socket"), None);
    ws.begin_connect().expect("no headers configured, so the plan succeeds");
    ws.upgrade_succeeded();
    assert_eq!(ws.current_state(), SessionState::Open);
    ws
}

#[test]
fn error_kind_names() {
    assert_eq!(WebSocketError::TlsError.as_ref(), "TlsError");
    assert_eq!(WebSocketError::HeaderError.as_ref(), "HeaderError");
    assert_eq!(WebSocketError::ConnectError.as_ref(), "ConnectError");
    assert_eq!(WebSocketError::SendError.as_ref(), "SendError");
    assert_eq!(WebSocketError::ReceiveError.as_ref(), "ReceiveError");
    assert_eq!(WebSocketError::CloseError.as_ref(), "CloseError");
}

#[test]
fn new_session_is_idle() {
    let ws = WebSocket::new(String::from("wss://example.test"), None);
    assert_eq!(ws.current_state(), SessionState::Idle);
}

#[test]
fn send_before_connect_rejected() {
    let mut ws = WebSocket::new(String::from("wss://example.test"), None);
    match ws.send(MessageData::Text(String::from("early"))) {
        SendOutcome::Rejected(e) => assert_eq!(e, WebSocketError::SendError),
        _ => panic!("a never-opened session must reject sends"),
    }
}

#[test]
fn ping_oversized_rejected_before_queue() {
    // The length check decides alone: even on a session that is not open
    // (where a ping would otherwise be rejected with SendError), an
    // oversized payload fails with the length verdict.
    let mut ws = WebSocket::new(String::from("wss://example.test"), None);
    assert!(matches!(ws.ping(Some(vec![0u8; 129])), PingOutcome::TooLong));
    let mut ws = open_session();
    assert!(matches!(ws.ping(Some(vec![0u8; 200])), PingOutcome::TooLong));
    // The queue saw nothing.
    assert!(ws.drain_next().is_none());
}

#[test]
fn ping_boundary_lengths() {
    let mut ws = open_session();
    assert!(matches!(ws.ping(Some(vec![7u8; 128])), PingOutcome::Enqueued));
    assert!(matches!(ws.ping(Some(vec![7u8; 129])), PingOutcome::TooLong));
}

#[test]
fn ping_default_payload() {
    let mut ws = open_session();
    assert!(matches!(ws.ping(None), PingOutcome::Enqueued));
    match ws.drain_next() {
        Some(Frame::Ping(p)) => assert_eq!(p, b"ping".to_vec()),
        _ => panic!("expected the queued ping with the default payload"),
    }
}

#[test]
fn ping_not_open_rejected() {
    let mut ws = WebSocket::new(String::from("wss://example.test"), None);
    match ws.ping(Some(vec![1u8, 2u8])) {
        PingOutcome::Rejected(e) => assert_eq!(e, WebSocketError::SendError),
        _ => panic!("a never-opened session must reject pings"),
    }
}

#[test]
fn text_round_trip_tagged() {
    // Outbound: a text send reaches the wire as a text frame carrying
    // exactly "hello".
    let mut ws = open_session();
    assert!(matches!(
        ws.send(MessageData::Text(String::from("hello"))),
        SendOutcome::Enqueued
    ));
    match ws.drain_next() {
        Some(Frame::Text(t)) => assert_eq!(t, "hello"),
        Some(Frame::Binary(_)) => panic!("a text send must stay text-tagged"),
        _ => panic!("expected the queued text frame"),
    }
    // Inbound: the peer's text frame is delivered as a text-tagged message.
    let mut ws = open_session();
    ws.on_message();
    match ws.handle_frame(Frame::Text(String::from("hello"))) {
        DispatchStep::Notify(Notification::Message(MessageData::Text(t))) => {
            assert_eq!(t, "hello")
        },
        _ => panic!("expected a text-tagged message notification"),
    }
}

#[test]
fn binary_send_keeps_bytes() {
    let mut ws = open_session();
    assert!(matches!(
        ws.send(MessageData::Binary(vec![0u8, 255u8, 3u8])),
        SendOutcome::Enqueued
    ));
    match ws.drain_next() {
        Some(Frame::Binary(b)) => assert_eq!(b, vec![0u8, 255u8, 3u8]),
        _ => panic!("expected the queued binary frame"),
    }
}

#[test]
fn wire_order_interleaves_callers_fifo() {
    // Two logical callers interleaving their sends: the wire preserves the
    // global enqueue order, so each caller's relative order survives.
    let mut ws = open_session();
    ws.send(MessageData::Text(String::from("a1")));
    ws.send(MessageData::Text(String::from("b1")));
    ws.send(MessageData::Text(String::from("a2")));
    ws.send(MessageData::Text(String::from("b2")));
    let expect = ["a1", "b1", "a2", "b2"];
    for want in expect.iter() {
        match ws.drain_next() {
            Some(Frame::Text(t)) => assert_eq!(&t, want),
            _ => panic!("expected text frames in enqueue order"),
        }
    }
}

#[test]
fn auto_pong_without_handler() {
    let mut ws = open_session();
    // No ping handler registered: the dispatcher owes an automatic pong
    // with exactly the bytes "pong", whatever the ping carried.
    match ws.handle_frame(Frame::Ping(vec![9u8, 9u8])) {
        DispatchStep::AutoPong(p) => {
            assert_eq!(p, b"pong".to_vec());
            assert!(matches!(ws.queue_pong(p), PongOutcome::Enqueued));
        },
        _ => panic!("expected an automatic pong"),
    }
    match ws.drain_next() {
        Some(Frame::Pong(p)) => assert_eq!(p, b"pong".to_vec()),
        _ => panic!("expected the queued pong"),
    }
}

#[test]
fn registered_ping_handler_round_trip() {
    let mut ws = open_session();
    ws.on_ping();
    match ws.handle_frame(Frame::Ping(vec![5u8])) {
        DispatchStep::CallPingHandler(p) => assert_eq!(p, vec![5u8]),
        _ => panic!("a registered handler must be called"),
    }
    // The handler returned replacement bytes: the pong carries them exactly.
    let body = ws_session::dispatch::pong_reply_payload(PingReply::Payload(vec![1u8, 2u8]));
    assert_eq!(body, vec![1u8, 2u8]);
    assert!(matches!(ws.queue_pong(body), PongOutcome::Enqueued));
    match ws.drain_next() {
        Some(Frame::Pong(p)) => assert_eq!(p, vec![1u8, 2u8]),
        _ => panic!("expected the handler's pong"),
    }
}

#[test]
fn pong_reply_defaults() {
    assert_eq!(
        ws_session::dispatch::pong_reply_payload(PingReply::Empty),
        b"pong".to_vec()
    );
    assert_eq!(
        ws_session::dispatch::pong_reply_payload(PingReply::Failed),
        b"pong".to_vec()
    );
}

#[test]
fn pong_notification_and_other_frames() {
    let mut ws = open_session();
    ws.on_pong();
    match ws.handle_frame(Frame::Pong(vec![4u8])) {
        DispatchStep::Notify(Notification::Pong(p)) => assert_eq!(p, vec![4u8]),
        _ => panic!("expected a pong notification"),
    }
    assert!(matches!(ws.handle_frame(Frame::Other), DispatchStep::Ignore));
    // Without a message handler, messages are silently dropped.
    assert!(matches!(
        ws.handle_frame(Frame::Text(String::from("x"))),
        DispatchStep::Ignore
    ));
}

#[test]
fn read_error_notification() {
    let mut ws = open_session();
    assert!(ws.handle_read_error().is_none());
    ws.on_error();
    assert!(matches!(
        ws.handle_read_error(),
        Some(Notification::Error)
    ));
    // The read loop continues: the session is still open.
    assert_eq!(ws.current_state(), SessionState::Open);
}

#[test]
fn remote_close_fires_once_then_sends_fail() {
    let mut ws = WebSocket::new(String::from("wss://example.test"), None);
    ws.on_close();
    ws.begin_connect().expect("plan");
    ws.upgrade_succeeded();
    match ws.stream_ended() {
        Some(Notification::Close) => {},
        _ => panic!("the close notification must fire at the terminal transition"),
    }
    assert_eq!(ws.current_state(), SessionState::Closed);
    match ws.send(MessageData::Text(String::from("late"))) {
        SendOutcome::Rejected(e) => assert_eq!(e, WebSocketError::SendError),
        _ => panic!("sends on the dead session must fail with SendError"),
    }
    match ws.close() {
        CloseOutcome::Rejected(e) => assert_eq!(e, WebSocketError::CloseError),
        _ => panic!("close on the dead session must fail with CloseError"),
    }
}

#[test]
fn inbound_close_frame_consumes_the_notification() {
    let mut ws = open_session();
    ws.on_close();
    assert!(matches!(
        ws.handle_frame(Frame::Close(None)),
        DispatchStep::Notify(Notification::Close)
    ));
    // A second close frame, and the terminal transition itself, stay silent.
    assert!(matches!(
        ws.handle_frame(Frame::Close(None)),
        DispatchStep::Ignore
    ));
    assert!(ws.stream_ended().is_none());
}

#[test]
fn upgrade_notification_only_with_handler() {
    let mut ws = WebSocket::new(String::from("wss://example.test"), None);
    ws.begin_connect().expect("plan");
    assert!(ws.upgrade_succeeded().is_none());

    let mut ws = WebSocket::new(String::from("wss://example.test"), None);
    ws.on_open();
    ws.begin_connect().expect("plan");
    assert!(matches!(ws.upgrade_succeeded(), Some(Notification::Open)));
}

#[test]
fn establish_failure_kinds() {
    let config = WebSocketConfig {
        cert_path: Some(String::from("/no/such/file.pem")),
        headers: None,
        enable_extension: None,
    };
    let mut ws = WebSocket::new(String::from("wss://example.test"), Some(config));
    let plan = ws.begin_connect().expect("headers are empty, the plan succeeds");
    assert_eq!(plan.cert_path.as_deref(), Some("/no/such/file.pem"));
    assert_eq!(plan.url, "wss://example.test");
    // The certificate file cannot be opened: connect fails with TlsError,
    // the session is Failed, and no open notification ever arose.
    let e = ws.establish_failed(EstablishStage::CertOpen);
    assert_eq!(e, WebSocketError::TlsError);
    assert_eq!(ws.current_state(), SessionState::Failed);

    let mut ws = WebSocket::new(String::from("not a url"), None);
    ws.begin_connect().expect("plan");
    assert_eq!(
        ws.establish_failed(EstablishStage::BadUrl),
        WebSocketError::ConnectError
    );
    let mut ws = WebSocket::new(String::from("wss://example.test"), None);
    ws.begin_connect().expect("plan");
    assert_eq!(
        ws.establish_failed(EstablishStage::Upgrade),
        WebSocketError::ConnectError
    );
}

#[test]
fn header_failure_fails_the_connect() {
    let config = WebSocketConfig {
        cert_path: None,
        headers: Some(vec![(String::from("bad name"), String::from("v"))]),
        enable_extension: Some(false),
    };
    let mut ws = WebSocket::new(String::from("wss://example.test"), Some(config));
    let failure = ws.begin_connect().expect_err("the invalid name must abort");
    assert_eq!(failure.key, "bad name");
    assert_eq!(failure.kind(), WebSocketError::HeaderError);
    assert_eq!(ws.current_state(), SessionState::Failed);
}

#[test]
fn connect_plan_carries_extension_and_user_headers() {
    let config = WebSocketConfig {
        cert_path: None,
        headers: Some(vec![(String::from("X-Test"), String::from("1"))]),
        enable_extension: Some(true),
    };
    let mut ws = WebSocket::new(String::from("wss://example.test"), Some(config));
    let plan = ws.begin_connect().expect("valid headers");
    assert_eq!(plan.headers.len(), 2);
    assert_eq!(plan.headers[0].0, "Sec-WebSocket-Extensions");
    assert_eq!(plan.headers[1].0, "X-Test");
    assert_eq!(
        ws_session::headers::resolve_header(&plan.headers, "X-Test"),
        Some("1".to_string())
    );
    assert_eq!(
        ws_session::headers::resolve_header(&plan.headers, "Sec-WebSocket-Extensions"),
        Some("permessage-deflate; client_max_window_bits".to_string())
    );
}

#[test]
fn close_request_turns_session_closing() {
    let mut ws = open_session();
    assert!(matches!(ws.close(), CloseOutcome::Enqueued));
    assert_eq!(ws.current_state(), SessionState::Closing);
    match ws.drain_next() {
        Some(f @ Frame::Close(None)) => {
            assert_eq!(ws.write_failure_kind(&f), WebSocketError::CloseError);
        },
        _ => panic!("expected the queued close frame"),
    }
    // Sends are still possible while the race has not resolved.
    assert!(matches!(
        ws.send(MessageData::Text(String::from("tail"))),
        SendOutcome::Enqueued
    ));
    match ws.drain_next() {
        Some(f) => assert_eq!(ws.write_failure_kind(&f), WebSocketError::SendError),
        None => panic!("expected the tail frame"),
    }
}

#[test]
fn queue_pong_dropped_when_not_live() {
    let mut ws = WebSocket::new(String::from("wss://example.test"), None);
    assert!(matches!(ws.queue_pong(b"pong".to_vec()), PongOutcome::Dropped));
}

#[test]
fn outbound_finished_is_silent() {
    let mut ws = open_session();
    ws.on_close();
    ws.outbound_finished();
    assert_eq!(ws.current_state(), SessionState::Closed);
    // The write-side termination does not fire the close notification, but
    // the session rejects further traffic all the same.
    assert!(matches!(
        ws.send(MessageData::Text(String::from("x"))),
        SendOutcome::Rejected(_)
    ));
}

#[test]
fn reconnect_after_termination_keeps_callbacks() {
    let mut ws = WebSocket::new(String::from("wss://example.test"), None);
    ws.on_message();
    ws.begin_connect().expect("plan");
    ws.upgrade_succeeded();
    ws.stream_ended();
    assert_eq!(ws.current_state(), SessionState::Closed);
    // A fresh attempt gets a fresh session; registrations survive.
    ws.begin_connect().expect("plan");
    ws.upgrade_succeeded();
    assert_eq!(ws.current_state(), SessionState::Open);
    assert!(matches!(
        ws.send(MessageData::Text(String::from("again"))),
        SendOutcome::Enqueued
    ));
    assert!(matches!(
        ws.handle_frame(Frame::Text(String::from("hi"))),
        DispatchStep::Notify(Notification::Message(MessageData::Text(_)))
    ));
}

#[test]
fn backpressure_hands_payload_back() {
    let mut ws = open_session();
    for _ in 0..32 {
        assert!(matches!(
            ws.send(MessageData::Binary(vec![0u8])),
            SendOutcome::Enqueued
        ));
    }
    match ws.send(MessageData::Text(String::from("over"))) {
        SendOutcome::Backpressure(MessageData::Text(t)) => assert_eq!(t, "over"),
        _ => panic!("a full queue must hand the payload back"),
    }
    match ws.ping(Some(vec![1u8])) {
        PingOutcome::Backpressure(b) => assert_eq!(b, vec![1u8]),
        _ => panic!("a full queue must hand the ping payload back"),
    }
    assert!(matches!(ws.close(), CloseOutcome::Backpressure));
    match ws.queue_pong(vec![2u8]) {
        PongOutcome::Backpressure(b) => assert_eq!(b, vec![2u8]),
        _ => panic!("a full queue must hand the pong payload back"),
    }
}
