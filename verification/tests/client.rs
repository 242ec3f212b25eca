use wasm_socket::client::create_websocket_client;
use wasm_socket::client::wasm_query_database;
use wasm_socket::client::HandlerError;
use wasm_socket::client::SendError;

#[test]
fn test_new_client_starts_disconnected() {
    let c = create_websocket_client("ws://localhost:8080");
    assert_eq!(c.url, "ws://localhost:8080");
    assert_eq!(c.message_counter, 0);
    assert!(!c.is_connected());
}

#[test]
fn test_connect_then_open_reports_connected() {
    let mut c = create_websocket_client("ws://localhost:8080");
    c.connect();
    assert!(!c.is_connected());
    c.on_transport_open();
    assert!(c.is_connected());
}

#[test]
fn test_send_ping_not_connected() {
    let mut c = create_websocket_client("ws://localhost:8080");
    let r = c.send_ping("hello", 1);
    assert!(matches!(r, Err(SendError::NotConnected)));
    assert_eq!(c.message_counter, 0);
    let q = c.send_query("SELECT 1", None, 2);
    assert!(matches!(q, Err(SendError::NotConnected)));
    assert_eq!(c.message_counter, 0);
}

#[test]
fn test_send_query_invalid_params() {
    let mut c = create_websocket_client("ws://localhost:8080");
    c.connect();
    c.on_transport_open();
    let r = c.send_query("SELECT 1", Some(String::from("not json")), 3);
    assert!(matches!(r, Err(SendError::InvalidParameters(_))));
    assert_eq!(c.message_counter, 0);
    // a JSON value that is not an array is refused too
    let r2 = c.send_query("SELECT 1", Some(String::from("{\"a\":1}")), 3);
    assert!(matches!(r2, Err(SendError::InvalidParameters(_))));
    assert_eq!(c.message_counter, 0);
    // a well-formed array goes through
    let r3 = c.send_query("SELECT 1", Some(String::from("[1, 2]")), 3);
    assert!(r3.is_ok());
    assert_eq!(c.message_counter, 1);
}

#[test]
fn test_send_increments_counter_and_ids_unique() {
    let mut c = create_websocket_client("ws://localhost:8080");
    c.connect();
    c.on_transport_open();
    let a = c.send_ping("one", 44).unwrap();
    assert_eq!(c.message_counter, 1);
    let b = c.send_ping("two", 44).unwrap();
    assert_eq!(c.message_counter, 2);
    let d = c.send_query("SELECT 1", None, 44).unwrap();
    assert_eq!(c.message_counter, 3);
    assert_ne!(a.message_id, b.message_id);
    assert_ne!(a.message_id, d.message_id);
    assert_ne!(b.message_id, d.message_id);
}

#[test]
fn test_disconnect_not_connected() {
    let mut c = create_websocket_client("ws://localhost:8080");
    c.connect();
    c.on_transport_open();
    assert!(c.is_connected());
    c.disconnect();
    assert!(!c.is_connected());
    // disconnecting an unconnected client is a harmless no-op
    c.disconnect();
    assert!(!c.is_connected());
}

#[test]
fn test_close_event_blocks_sends_until_reconnect() {
    let mut c = create_websocket_client("ws://localhost:8080");
    c.connect();
    c.on_transport_open();
    c.on_transport_close();
    assert!(!c.is_connected());
    let r = c.send_ping("hello", 1);
    assert!(matches!(r, Err(SendError::NotConnected)));
    c.connect();
    c.on_transport_open();
    assert!(c.is_connected());
    assert!(c.send_ping("hello", 1).is_ok());
}

#[test]
fn test_set_message_handler_before_connect() {
    let mut c = create_websocket_client("ws://localhost:8080");
    let r = c.set_message_handler();
    assert!(matches!(r, Err(HandlerError::NotInitialized)));
    c.connect();
    // a connection that exists but is not yet open is enough
    assert!(c.set_message_handler().is_ok());
}

#[test]
fn test_wasm_query_database_connects() {
    let c = wasm_query_database("ws://localhost:8080", "SELECT 1", None);
    assert_eq!(c.url, "ws://localhost:8080");
    assert_eq!(c.message_counter, 0);
    // the connection exists but has not reported itself open yet
    assert!(!c.is_connected());
}

#[test]
fn test_ping_frame_exact_text() {
    let mut c = create_websocket_client("ws://localhost:8080");
    c.connect();
    c.on_transport_open();
    let f = c.send_ping("hello", 5).unwrap();
    assert_eq!(f.message_id, "wasm_ping_1_5");
    assert_eq!(
        f.text,
        "{\"type\":\"ping\",\"payload\":\"hello\",\"id\":\"wasm_ping_1_5\"}"
    );
}

#[test]
fn test_query_frame_exact_text() {
    let mut c = create_websocket_client("ws://localhost:8080");
    c.connect();
    c.on_transport_open();
    let f = c
        .send_query("SELECT 1", Some(String::from("[1,2]")), 9)
        .unwrap();
    assert_eq!(f.message_id, "wasm_query_1_9");
    assert_eq!(
        f.text,
        "{\"type\":\"query\",\"payload\":{\"sql\":\"SELECT 1\",\"params\":[1,2]},\"id\":\"wasm_query_1_9\"}"
    );
}

#[test]
fn test_query_frame_without_params_omits_them() {
    let mut c = create_websocket_client("ws://localhost:8080");
    c.connect();
    c.on_transport_open();
    let f = c.send_query("SELECT 2", None, 11).unwrap();
    assert_eq!(
        f.text,
        "{\"type\":\"query\",\"payload\":{\"sql\":\"SELECT 2\"},\"id\":\"wasm_query_1_11\"}"
    );
}

#[test]
fn test_ping_frame_escapes_and_parses_back() {
    let mut c = create_websocket_client("ws://localhost:8080");
    c.connect();
    c.on_transport_open();
    let payload = "a\"b\\c\nd\te\u{1}f é";
    let f = c.send_ping(payload, 7).unwrap();
    let v: serde_json::Value = serde_json::from_str(&f.text).unwrap();
    assert_eq!(v["type"].as_str(), Some("ping"));
    assert_eq!(v["payload"].as_str(), Some(payload));
    assert_eq!(v["id"].as_str(), Some(f.message_id.as_str()));
}

#[test]
fn test_query_frame_parses_back() {
    let mut c = create_websocket_client("ws://localhost:8080");
    c.connect();
    c.on_transport_open();
    let f = c
        .send_query("SELECT * FROM \"t\"", Some(String::from("[1, \"x\", null]")), 13)
        .unwrap();
    let v: serde_json::Value = serde_json::from_str(&f.text).unwrap();
    assert_eq!(v["type"].as_str(), Some("query"));
    assert_eq!(v["payload"]["sql"].as_str(), Some("SELECT * FROM \"t\""));
    let params = v["payload"]["params"].as_array().unwrap();
    assert_eq!(params.len(), 3);
    assert_eq!(params[0].as_i64(), Some(1));
    assert_eq!(params[1].as_str(), Some("x"));
    assert!(params[2].is_null());
}
