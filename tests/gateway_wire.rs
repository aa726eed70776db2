use seria::error::{fault_reason, handle_websocket_error, SeriaError, SocketFault};
use seria::gateway::reader::{read_frames, read_step, InboundFrame, ReaderStep};
use seria::gateway::wire::{decimal_string, encode_all, encode_intent, frame_intent, write_step, WriterStep};
use seria::models::{ClientEvent, GatewayEvent};
use tokio_tungstenite::tungstenite::Error as WsError;

#[test]
fn authenticate_encodes_as_tagged_object() {
    let e = ClientEvent::Authenticate { token: "abc".to_string() };
    assert_eq!(encode_intent(&e), r#"{"type":"Authenticate","token":"abc"}"#);
}

#[test]
fn encoding_escapes_text() {
    let e = ClientEvent::BeginTyping { channel: "a\"b".to_string() };
    assert_eq!(encode_intent(&e), r#"{"type":"BeginTyping","channel":"a\"b"}"#);
}

#[test]
fn typing_end_and_ping_encode() {
    let e = ClientEvent::EndTyping { channel: "c1".to_string() };
    assert_eq!(encode_intent(&e), r#"{"type":"EndTyping","channel":"c1"}"#);
    let p = ClientEvent::Ping { data: 0 };
    assert_eq!(encode_intent(&p), r#"{"type":"Ping","data":0}"#);
    let q = ClientEvent::Ping { data: 90210 };
    assert_eq!(encode_intent(&q), r#"{"type":"Ping","data":90210}"#);
}

#[test]
fn frame_takes_quoted_text_as_given() {
    let e = ClientEvent::Authenticate { token: "ignored".to_string() };
    assert_eq!(frame_intent(&e, "\"x\""), r#"{"type":"Authenticate","token":"x"}"#);
}

#[test]
fn decimal_notation() {
    assert_eq!(decimal_string(0), "0");
    assert_eq!(decimal_string(7), "7");
    assert_eq!(decimal_string(1234), "1234");
    assert_eq!(decimal_string(usize::MAX), usize::MAX.to_string());
}

#[test]
fn batch_keeps_order_once_each() {
    let intents = vec![
        ClientEvent::Authenticate { token: "t".to_string() },
        ClientEvent::Ping { data: 0 },
        ClientEvent::BeginTyping { channel: "c".to_string() },
        ClientEvent::Ping { data: 1 },
    ];
    let frames: Vec<String> = encode_all(&intents);
    assert_eq!(
        frames,
        vec![
            r#"{"type":"Authenticate","token":"t"}"#.to_string(),
            r#"{"type":"Ping","data":0}"#.to_string(),
            r#"{"type":"BeginTyping","channel":"c"}"#.to_string(),
            r#"{"type":"Ping","data":1}"#.to_string(),
        ]
    );
    assert!(encode_all(&Vec::new()).is_empty());
}

#[test]
fn pong_is_intercepted() {
    assert!(matches!(read_step(InboundFrame::Event(GatewayEvent::Pong)), ReaderStep::Pong));
}

#[test]
fn unknown_tag_is_delivered_and_reading_goes_on() {
    assert!(matches!(
        read_step(InboundFrame::Event(GatewayEvent::Unknown)),
        ReaderStep::Deliver(Ok(GatewayEvent::Unknown))
    ));
}

#[test]
fn malformed_frame_is_reported_not_fatal() {
    match read_step(InboundFrame::Malformed("bad".to_string())) {
        ReaderStep::Deliver(Err(SeriaError::Other(m))) => assert_eq!(m, "Deserialization error: bad"),
        other => panic!("unexpected {:?}", other),
    }
}

#[test]
fn close_and_failure_stop_reading() {
    match read_step(InboundFrame::Closed) {
        ReaderStep::Stop(SeriaError::Other(m)) => assert_eq!(m, "WebSocket disconnected"),
        other => panic!("unexpected {:?}", other),
    }
    match read_step(InboundFrame::Failed(SeriaError::Other("boom".to_string()))) {
        ReaderStep::Stop(SeriaError::Other(m)) => assert_eq!(m, "boom"),
        other => panic!("unexpected {:?}", other),
    }
    assert!(matches!(read_step(InboundFrame::Ignored), ReaderStep::Skip));
}

#[test]
fn pongs_never_reach_the_consumer() {
    let frames = vec![
        InboundFrame::Event(GatewayEvent::Authenticated),
        InboundFrame::Event(GatewayEvent::Pong),
        InboundFrame::Event(GatewayEvent::Unknown),
        InboundFrame::Event(GatewayEvent::Pong),
        InboundFrame::Malformed("x".to_string()),
        InboundFrame::Event(GatewayEvent::Ready),
        InboundFrame::Closed,
        InboundFrame::Event(GatewayEvent::ChannelStartTyping),
    ];
    let out = read_frames(frames);
    assert_eq!(out.pongs, 2);
    assert_eq!(out.consumed, 7);
    assert!(out.stopped.is_some());
    assert_eq!(out.delivered.len(), 4);
    assert!(matches!(out.delivered[0], Ok(GatewayEvent::Authenticated)));
    assert!(matches!(out.delivered[1], Ok(GatewayEvent::Unknown)));
    assert!(matches!(out.delivered[2], Err(SeriaError::Other(_))));
    assert!(matches!(out.delivered[3], Ok(GatewayEvent::Ready)));
    assert!(out.delivered.iter().all(|d| !matches!(d, Ok(GatewayEvent::Pong))));
}

#[test]
fn frames_without_close_are_all_read() {
    let out = read_frames(vec![InboundFrame::Ignored, InboundFrame::Event(GatewayEvent::ChannelStopTyping)]);
    assert_eq!(out.consumed, 2);
    assert!(out.stopped.is_none());
    assert_eq!(out.delivered.len(), 1);
}

#[test]
fn socket_faults_get_reasons() {
    assert_eq!(fault_reason(SocketFault::AlreadyClosed).unwrap(), "WebSocket already closed");
    assert_eq!(fault_reason(SocketFault::Io(Some(104))).unwrap(), "Connection reset by peer");
    assert_eq!(
        fault_reason(SocketFault::Io(Some(10054))).unwrap(),
        "Connection forcibly closed by remote host"
    );
    assert!(fault_reason(SocketFault::Io(Some(1))).is_none());
    assert!(fault_reason(SocketFault::Io(None)).is_none());
    assert!(fault_reason(SocketFault::Other).is_none());
}

#[test]
fn websocket_errors_are_classified() {
    match handle_websocket_error(WsError::AlreadyClosed) {
        SeriaError::Other(m) => assert_eq!(m, "WebSocket already closed"),
        other => panic!("unexpected {:?}", other),
    }
    let reset = std::io::Error::from_raw_os_error(104);
    match handle_websocket_error(WsError::Io(reset)) {
        SeriaError::Other(m) => assert_eq!(m, "Connection reset by peer"),
        other => panic!("unexpected {:?}", other),
    }
    assert!(matches!(
        handle_websocket_error(WsError::ConnectionClosed),
        SeriaError::WebSocket(WsError::ConnectionClosed)
    ));
}

#[test]
fn control_characters_are_escaped() {
    let e = ClientEvent::Authenticate { token: "a\\b\n\t\u{1}\u{1f}\u{8}\u{c}\ré".to_string() };
    assert_eq!(
        encode_intent(&e),
        r#"{"type":"Authenticate","token":"a\\b\n\t\u0001\u001f\b\f\ré"}"#
    );
    assert_eq!(encode_intent(&e), format!(r#"{{"type":"Authenticate","token":{}}}"#, serde_json::to_string("a\\b\n\t\u{1}\u{1f}\u{8}\u{c}\ré").unwrap()));
}

#[test]
fn writer_goes_on_or_stops() {
    assert!(matches!(write_step(Ok(())), WriterStep::Continue));
    match write_step(Err(SeriaError::Other("broken pipe".to_string()))) {
        WriterStep::Stop(SeriaError::Other(m)) => assert_eq!(m, "broken pipe"),
        other => panic!("unexpected {:?}", other),
    }
}
