use orangevault::notifications::{
    create_notification, create_ping, handshake_accept, hub_token, is_notify_path,
    is_websocket_upgrade, on_client_message, ping_interval, receives_messages, serialize_msgpack,
    varint_prefix, ConnectionState, MsgValue, SocketAction, UpdateType,
};
use orangevault::error::AppError;

#[test]
fn update_codes_follow_bitwarden() {
    assert_eq!(UpdateType::SyncCipherUpdate.code(), 0);
    assert_eq!(UpdateType::SyncVault.code(), 5);
    assert_eq!(UpdateType::LogOut.code(), 11);
    assert_eq!(UpdateType::SyncSendDelete.code(), 14);
}

#[test]
fn varint_prefix_examples() {
    assert_eq!(varint_prefix(0), vec![0x00]);
    assert_eq!(varint_prefix(127), vec![0x7f]);
    assert_eq!(varint_prefix(128), vec![0x80, 0x01]);
    assert_eq!(varint_prefix(300), vec![0xac, 0x02]);
    assert_eq!(varint_prefix(16384), vec![0x80, 0x80, 0x01]);
}

fn read_varint(bytes: &[u8]) -> (usize, usize) {
    let mut value = 0usize;
    let mut shift = 0;
    for (i, b) in bytes.iter().enumerate() {
        value |= ((b & 0x7f) as usize) << shift;
        if b & 0x80 == 0 {
            return (value, i + 1);
        }
        shift += 7;
    }
    panic!("unterminated prefix");
}

#[test]
fn varint_prefix_reads_back() {
    for n in [0usize, 1, 127, 128, 255, 300, 16383, 16384, 1 << 20, (1 << 35) + 3] {
        let p = varint_prefix(n);
        assert_eq!(read_varint(&p), (n, p.len()));
    }
}

#[test]
fn ping_frame() {
    assert_eq!(serialize_msgpack(&create_ping()), vec![0x02, 0x91, 0x06]);
}

#[test]
fn notification_frame() {
    let msg = create_notification(5, "ctx", MsgValue::Pairs(vec![]));
    let framed = serialize_msgpack(&msg);
    let (len, k) = read_varint(&framed);
    assert_eq!(len, framed.len() - k);
    let body = &framed[k..];
    // [1, {}, nil, "ReceiveMessage", [{"ContextId": "ctx", "Type": 5, "Payload": {}}]]
    let mut expected = vec![0x95, 0x01, 0x80, 0xc0, 0xae];
    expected.extend_from_slice(b"ReceiveMessage");
    expected.extend_from_slice(&[0x91, 0x83, 0xa9]);
    expected.extend_from_slice(b"ContextId");
    expected.push(0xa3);
    expected.extend_from_slice(b"ctx");
    expected.push(0xa4);
    expected.extend_from_slice(b"Type");
    expected.push(0x05);
    expected.push(0xa7);
    expected.extend_from_slice(b"Payload");
    expected.push(0x80);
    assert_eq!(body, expected.as_slice());
}

#[test]
fn handshake_then_ignore() {
    assert_eq!(handshake_accept(), vec![0x7b, 0x7d, 0x1e]);
    let (s, a) = on_client_message(None);
    assert!(s.handshake_complete && a == SocketAction::AcceptHandshake);
    let (s, a) = on_client_message(Some(ConnectionState { handshake_complete: false }));
    assert!(s.handshake_complete && a == SocketAction::AcceptHandshake);
    let (s2, a2) = on_client_message(Some(s));
    assert!(s2.handshake_complete && a2 == SocketAction::Ignore);
    assert!(!receives_messages(None));
    assert!(!receives_messages(Some(ConnectionState { handshake_complete: false })));
    assert!(receives_messages(Some(s2)));
}

#[test]
fn ping_interval_setting() {
    assert_eq!(ping_interval(None), 15);
    assert_eq!(ping_interval(Some("30")), 30);
    assert_eq!(ping_interval(Some("+7")), 7);
    assert_eq!(ping_interval(Some("x")), 15);
    assert_eq!(ping_interval(Some("-1")), 15);
    assert_eq!(ping_interval(Some("18446744073709551615")), u64::MAX);
    assert_eq!(ping_interval(Some("18446744073709551616")), 15);
}

#[test]
fn upgrade_and_notify_routing() {
    assert!(is_websocket_upgrade(Some("websocket")));
    assert!(is_websocket_upgrade(Some("WebSocket")));
    assert!(!is_websocket_upgrade(Some("h2c")));
    assert!(!is_websocket_upgrade(None));
    assert!(is_notify_path("/notify"));
    assert!(is_notify_path("/x/notify"));
    assert!(!is_notify_path("/notify/x"));
}

#[test]
fn hub_token_sources() {
    assert_eq!(hub_token(Some("q".into()), Some("Bearer h")).ok().unwrap(), "q");
    assert_eq!(hub_token(None, Some("Bearer h")).ok().unwrap(), "h");
    assert!(matches!(hub_token(None, Some("Basic h")), Err(AppError::Unauthorized(m)) if m == "Missing access token"));
    assert!(hub_token(None, None).is_err());
}
