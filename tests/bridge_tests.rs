use mitm_relay::bridge::{
    forwarded_text, BridgeAction, BridgeEvent, BridgeStep, JsonMessage, RelayBridge, SocketRead,
    READ_BUFFER_SIZE, RELAY_PORT, STARTUP_GRACE_SECS,
};

fn connected() -> RelayBridge {
    let (mut b, first) = RelayBridge::new();
    assert!(matches!(first, BridgeAction::Sleep(s) if s == STARTUP_GRACE_SECS));
    let s = b.step(BridgeEvent::GraceElapsed);
    assert!(matches!(s.action, BridgeAction::Connect(p) if p == RELAY_PORT));
    let s = b.step(BridgeEvent::Connected);
    assert!(matches!(s.action, BridgeAction::CheckShutdown));
    b
}

fn reading() -> RelayBridge {
    let mut b = connected();
    let s = b.step(BridgeEvent::ShutdownFlag(false));
    assert!(matches!(s.action, BridgeAction::WaitReadable));
    let s = b.step(BridgeEvent::Ready(true));
    assert!(matches!(s.action, BridgeAction::TryRead(n) if n == READ_BUFFER_SIZE));
    b
}

fn deliver(b: &mut RelayBridge, bytes: &[u8]) -> BridgeStep {
    b.step(BridgeEvent::Read(SocketRead::Data(bytes.to_vec())))
}

#[test]
fn constants_match_the_proxy_setup() {
    assert_eq!(STARTUP_GRACE_SECS, 2);
    assert_eq!(RELAY_PORT, 12000);
    assert_eq!(READ_BUFFER_SIZE, 81920);
}

#[test]
fn message_field_is_forwarded() {
    let mut b = reading();
    let s = deliver(&mut b, br#"{"message":"hello"}"#);
    assert!(s.notify.is_none());
    match s.action {
        BridgeAction::Decode(t) => assert_eq!(t, r#"{"message":"hello"}"#),
        _ => panic!("expected a decode request"),
    }
    let s = b.step(BridgeEvent::Decoded(Some(JsonMessage {
        message: Some("hello".to_string()),
        extra: "{}".to_string(),
    })));
    assert_eq!(s.notify, Some("hello".to_string()));
    assert!(matches!(s.action, BridgeAction::CheckShutdown));
    assert!(!b.is_finished());
}

#[test]
fn object_without_message_is_forwarded_whole() {
    let mut b = reading();
    let s = deliver(&mut b, br#"{"foo":1}"#);
    assert!(matches!(s.action, BridgeAction::Decode(_)));
    let s = b.step(BridgeEvent::Decoded(Some(JsonMessage {
        message: None,
        extra: r#"{"foo":1}"#.to_string(),
    })));
    assert_eq!(s.notify, Some(r#"{"foo":1}"#.to_string()));
}

#[test]
fn malformed_json_is_dropped() {
    let mut b = reading();
    let s = deliver(&mut b, b"not json");
    match s.action {
        BridgeAction::Decode(t) => assert_eq!(t, "not json"),
        _ => panic!("expected a decode request"),
    }
    let s = b.step(BridgeEvent::Decoded(None));
    assert!(s.notify.is_none());
    assert!(matches!(s.action, BridgeAction::CheckShutdown));
}

#[test]
fn invalid_utf8_is_dropped() {
    let mut b = reading();
    let s = deliver(&mut b, b"\xff\xfe{}");
    assert!(s.notify.is_none());
    assert!(matches!(s.action, BridgeAction::CheckShutdown));
    assert!(!b.is_finished());
}

#[test]
fn multibyte_text_is_decoded() {
    let mut b = reading();
    let s = deliver(&mut b, "{\"message\":\"h\u{e9}\"}".as_bytes());
    match s.action {
        BridgeAction::Decode(t) => assert_eq!(t, "{\"message\":\"h\u{e9}\"}"),
        _ => panic!("expected a decode request"),
    }
}

#[test]
fn zero_byte_read_closes_once() {
    let mut b = reading();
    let s = deliver(&mut b, b"");
    assert_eq!(s.notify, Some("Connection closed".to_string()));
    assert!(matches!(s.action, BridgeAction::Stop));
    assert!(b.is_finished());
    for ev in [
        BridgeEvent::Read(SocketRead::Data(Vec::new())),
        BridgeEvent::ShutdownFlag(false),
        BridgeEvent::Ready(true),
        BridgeEvent::Decoded(None),
    ] {
        let s = b.step(ev);
        assert!(s.notify.is_none());
        assert!(matches!(s.action, BridgeAction::Stop));
    }
}

#[test]
fn shutdown_before_first_wait_never_reads() {
    let mut b = connected();
    let s = b.step(BridgeEvent::ShutdownFlag(true));
    assert!(s.notify.is_none());
    assert!(matches!(s.action, BridgeAction::Stop));
    assert!(b.is_finished());
    let s = b.step(BridgeEvent::Ready(true));
    assert!(matches!(s.action, BridgeAction::Stop));
}

#[test]
fn connect_failure_notifies_and_stops() {
    let (mut b, _) = RelayBridge::new();
    b.step(BridgeEvent::GraceElapsed);
    let s = b.step(BridgeEvent::ConnectFailed("Connection refused (os error 111)".to_string()));
    assert_eq!(
        s.notify,
        Some("Failed to connect to port 12000: Connection refused (os error 111)".to_string())
    );
    assert!(matches!(s.action, BridgeAction::Stop));
    assert!(b.is_finished());
}

#[test]
fn read_error_notifies_and_stops() {
    let mut b = reading();
    let s = b.step(BridgeEvent::Read(SocketRead::Failed("reset by peer".to_string())));
    assert_eq!(s.notify, Some("Error: reset by peer".to_string()));
    assert!(b.is_finished());
}

#[test]
fn readiness_error_notifies_and_stops() {
    let mut b = connected();
    b.step(BridgeEvent::ShutdownFlag(false));
    let s = b.step(BridgeEvent::ReadyFailed("gone".to_string()));
    assert_eq!(s.notify, Some("Error: gone".to_string()));
    assert!(b.is_finished());
}

#[test]
fn would_block_is_a_spurious_wakeup() {
    let mut b = reading();
    let s = b.step(BridgeEvent::Read(SocketRead::WouldBlock));
    assert!(s.notify.is_none());
    assert!(matches!(s.action, BridgeAction::CheckShutdown));
    let s = b.step(BridgeEvent::ShutdownFlag(false));
    assert!(matches!(s.action, BridgeAction::WaitReadable));
    let s = b.step(BridgeEvent::Ready(false));
    assert!(matches!(s.action, BridgeAction::CheckShutdown));
}

#[test]
fn unexpected_event_repeats_pending_action() {
    let mut b = reading();
    let s = b.step(BridgeEvent::GraceElapsed);
    assert!(s.notify.is_none());
    assert!(matches!(s.action, BridgeAction::TryRead(n) if n == READ_BUFFER_SIZE));
}

#[test]
fn forwarded_text_prefers_message() {
    let m = JsonMessage { message: Some("a".to_string()), extra: "{\"b\":2}".to_string() };
    assert_eq!(forwarded_text(m), "a");
    let m = JsonMessage { message: None, extra: "{\"b\":2}".to_string() };
    assert_eq!(forwarded_text(m), "{\"b\":2}");
}

/// Decodes an envelope the way the relay's consumer does: an object whose
/// optional `message` is text, the other fields kept as the rest.
fn decode_envelope(text: &str) -> Option<JsonMessage> {
    let value: serde_json::Value = serde_json::from_str(text).ok()?;
    let mut fields = match value {
        serde_json::Value::Object(m) => m,
        _ => return None,
    };
    let message = match fields.remove("message") {
        None | Some(serde_json::Value::Null) => None,
        Some(serde_json::Value::String(s)) => Some(s),
        Some(_) => return None,
    };
    Some(JsonMessage { message, extra: serde_json::Value::Object(fields).to_string() })
}

fn relay_once(bytes: &[u8]) -> Vec<String> {
    let mut b = reading();
    let mut notes = Vec::new();
    let mut step = deliver(&mut b, bytes);
    loop {
        notes.extend(step.notify.take());
        match step.action {
            BridgeAction::Decode(t) => step = b.step(BridgeEvent::Decoded(decode_envelope(&t))),
            _ => break,
        }
    }
    notes
}

#[test]
fn relay_json_scenarios() {
    assert_eq!(relay_once(br#"{"message":"hello"}"#), vec!["hello".to_string()]);
    assert_eq!(relay_once(br#"{"foo":1}"#), vec![r#"{"foo":1}"#.to_string()]);
    assert!(relay_once(b"not json").is_empty());
}

#[test]
fn unanswered_decoding_counts_as_malformed() {
    let mut b = reading();
    let s = deliver(&mut b, b"{}");
    assert!(matches!(s.action, BridgeAction::Decode(_)));
    let s = b.step(BridgeEvent::Ready(true));
    assert!(s.notify.is_none());
    assert!(matches!(s.action, BridgeAction::CheckShutdown));
    let s = b.step(BridgeEvent::ShutdownFlag(false));
    assert!(matches!(s.action, BridgeAction::WaitReadable));
}
