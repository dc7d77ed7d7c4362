//! Connection scenarios: two cores exchanging framed lines.

use mcpl_core::connection::{CallOutcome, IncomingMessage, Ingest, McplConnection};
use mcpl_core::json::JsonValue;
use mcpl_core::types::{
    ConnectionError, JsonRpcError, JsonRpcId, JsonRpcMessage, JsonRpcNotification,
    JsonRpcRequest, JsonRpcResponse, MalformedKind, ERR_CHECKPOINT_NOT_FOUND,
};

fn frame(m: JsonRpcMessage) -> String {
    McplConnection::encode_frame(m).expect("framable message")
}

// Payload objects travel through serde_json's order-preserving map, so the
// field order written here is the order that comes back.
fn init_params() -> JsonValue {
    JsonValue::Obj(vec![
        (
            "clientInfo".to_string(),
            JsonValue::Obj(vec![
                ("name".to_string(), JsonValue::Str("test-client".to_string())),
                ("version".to_string(), JsonValue::Str("0.1.0".to_string())),
            ]),
        ),
        ("protocolVersion".to_string(), JsonValue::Str("2024-11-05".to_string())),
    ])
}

fn init_result() -> JsonValue {
    JsonValue::Obj(vec![
        ("protocolVersion".to_string(), JsonValue::Str("2024-11-05".to_string())),
        (
            "serverInfo".to_string(),
            JsonValue::Obj(vec![
                ("name".to_string(), JsonValue::Str("test-server".to_string())),
                ("version".to_string(), JsonValue::Str("0.1.0".to_string())),
            ]),
        ),
    ])
}

#[test]
fn capability_handshake_scenario() {
    let mut client = McplConnection::new();
    let mut server = McplConnection::new();

    let (id, req) = client.start_request("initialize".to_string(), Some(init_params()));
    assert_eq!(id, 1);
    let line = frame(JsonRpcMessage::Request(req));

    assert_eq!(server.ingest_line(&line), Ok(Ingest::Queued));
    let incoming = server.take_message().expect("one queued message");
    let req = match incoming {
        IncomingMessage::Request(r) => r,
        other => panic!("expected a request, got {:?}", other),
    };
    assert_eq!(req.method, "initialize");
    assert_eq!(req.params, Some(init_params()));
    assert_eq!(req.id, JsonRpcId::Number(1));

    let resp = JsonRpcResponse::success(req.id, init_result());
    let line = frame(JsonRpcMessage::Response(resp));
    match client.ingest_line(&line) {
        Ok(Ingest::Resolved(CallOutcome::Success(v))) => assert_eq!(v, init_result()),
        other => panic!("expected the call to resolve, got {:?}", other),
    }
}

#[test]
fn fire_and_forget_notification() {
    let mut server = McplConnection::new();

    let params = JsonValue::Obj(vec![(
        "enabled".to_string(),
        JsonValue::Arr(vec![
            JsonValue::Str("lobby".to_string()),
            JsonValue::Str("game".to_string()),
        ]),
    )]);
    let n = JsonRpcNotification::new("featureSets/update".to_string(), Some(params));
    let line = frame(JsonRpcMessage::Notification(n));
    assert!(!line.contains("\"id\""));

    assert_eq!(server.ingest_line(&line), Ok(Ingest::Queued));
    match server.take_message().expect("one queued message") {
        IncomingMessage::Notification(n) => {
            assert_eq!(n.method, "featureSets/update");
            let expected = JsonValue::Obj(vec![(
                "enabled".to_string(),
                JsonValue::Arr(vec![
                    JsonValue::Str("lobby".to_string()),
                    JsonValue::Str("game".to_string()),
                ]),
            )]);
            assert_eq!(n.params, Some(expected));
        }
        other => panic!("expected a notification, got {:?}", other),
    }
}

#[test]
fn rpc_error_is_surfaced_with_code_and_message() {
    let mut client = McplConnection::new();
    let mut server = McplConnection::new();

    let params = JsonValue::Obj(vec![
        ("featureSet".to_string(), JsonValue::Str("game".to_string())),
        ("checkpoint".to_string(), JsonValue::Str("nonexistent".to_string())),
    ]);
    let (_, req) = client.start_request("state/rollback".to_string(), Some(params));
    assert_eq!(server.ingest_line(&frame(JsonRpcMessage::Request(req))), Ok(Ingest::Queued));
    let req = match server.take_message().expect("queued") {
        IncomingMessage::Request(r) => r,
        other => panic!("expected a request, got {:?}", other),
    };

    let resp = JsonRpcResponse::error(
        req.id,
        JsonRpcError {
            code: ERR_CHECKPOINT_NOT_FOUND,
            message: "Checkpoint not found".to_string(),
            data: None,
        },
    );
    match client.ingest_line(&frame(JsonRpcMessage::Response(resp))) {
        Ok(Ingest::Resolved(CallOutcome::RpcFailure { code, message })) => {
            assert_eq!(code, -32005);
            assert_eq!(message, "Checkpoint not found");
        }
        other => panic!("expected an RPC failure, got {:?}", other),
    }
}

#[test]
fn messages_arriving_mid_call_are_buffered_in_order() {
    let mut client = McplConnection::new();

    let (id, _req) = client.start_request("test/echo".to_string(), None);

    let a = JsonRpcNotification::new(
        "push/event".to_string(),
        Some(JsonValue::Obj(vec![(
            "eventId".to_string(),
            JsonValue::Str("tick_42".to_string()),
        )])),
    );
    let b = JsonRpcRequest::new(JsonRpcId::Number(9), "scope/elevate".to_string(), None);
    let resp = JsonRpcResponse::success(
        JsonRpcId::Number(id),
        JsonValue::Obj(vec![("echo".to_string(), JsonValue::Bool(true))]),
    );

    assert_eq!(client.ingest_line(&frame(JsonRpcMessage::Notification(a))), Ok(Ingest::Queued));
    assert_eq!(client.ingest_line(&frame(JsonRpcMessage::Request(b))), Ok(Ingest::Queued));
    match client.ingest_line(&frame(JsonRpcMessage::Response(resp))) {
        Ok(Ingest::Resolved(CallOutcome::Success(v))) => {
            assert_eq!(v, JsonValue::Obj(vec![("echo".to_string(), JsonValue::Bool(true))]));
        }
        other => panic!("expected the call to resolve, got {:?}", other),
    }

    match client.take_message().expect("first buffered message") {
        IncomingMessage::Notification(n) => assert_eq!(n.method, "push/event"),
        other => panic!("expected the notification first, got {:?}", other),
    }
    match client.take_message().expect("second buffered message") {
        IncomingMessage::Request(r) => {
            assert_eq!(r.method, "scope/elevate");
            assert_eq!(r.id, JsonRpcId::Number(9));
        }
        other => panic!("expected the request second, got {:?}", other),
    }
    assert_eq!(client.take_message(), None);
}

#[test]
fn identifiers_increase_from_one() {
    let mut client = McplConnection::new();
    let mut got: Vec<i64> = Vec::new();
    for _ in 0..3 {
        let (id, _req) = client.start_request("model/info".to_string(), None);
        got.push(id);
        let resp = JsonRpcResponse::success(JsonRpcId::Number(id), JsonValue::Null);
        match client.ingest_line(&frame(JsonRpcMessage::Response(resp))) {
            Ok(Ingest::Resolved(CallOutcome::Success(JsonValue::Null))) => {}
            other => panic!("expected a null success, got {:?}", other),
        }
    }
    assert_eq!(got, vec![1, 2, 3]);
}

#[test]
fn orphan_responses_are_discarded_without_corrupting_the_call() {
    let mut client = McplConnection::new();

    let orphan = JsonRpcResponse::success(JsonRpcId::Number(5), JsonValue::Bool(true));
    match client.ingest_line(&frame(JsonRpcMessage::Response(orphan))) {
        Ok(Ingest::Orphan(JsonRpcId::Number(5))) => {}
        other => panic!("expected an orphan, got {:?}", other),
    }
    assert_eq!(client.take_message(), None);

    let (id, _req) = client.start_request("channels/list".to_string(), None);
    let wrong = JsonRpcResponse::success(JsonRpcId::Number(id + 37), JsonValue::Bool(false));
    match client.ingest_line(&frame(JsonRpcMessage::Response(wrong))) {
        Ok(Ingest::Orphan(JsonRpcId::Number(n))) => assert_eq!(n, id + 37),
        other => panic!("expected an orphan, got {:?}", other),
    }
    let wrong_kind = JsonRpcResponse::success(
        JsonRpcId::String(id.to_string()),
        JsonValue::Bool(false),
    );
    match client.ingest_line(&frame(JsonRpcMessage::Response(wrong_kind))) {
        Ok(Ingest::Orphan(JsonRpcId::String(s))) => assert_eq!(s, "1"),
        other => panic!("expected an orphan, got {:?}", other),
    }

    let right = JsonRpcResponse::success(JsonRpcId::Number(id), JsonValue::Int(11));
    match client.ingest_line(&frame(JsonRpcMessage::Response(right))) {
        Ok(Ingest::Resolved(CallOutcome::Success(JsonValue::Int(11)))) => {}
        other => panic!("expected the call to resolve, got {:?}", other),
    }
}

#[test]
fn blank_lines_are_skipped() {
    let mut conn = McplConnection::new();
    assert_eq!(conn.ingest_line("   \t  "), Ok(Ingest::Blank));
    assert_eq!(conn.ingest_line(""), Ok(Ingest::Blank));
    assert_eq!(conn.take_message(), None);
}

#[test]
fn malformed_lines_carry_the_offending_text() {
    let mut conn = McplConnection::new();
    match conn.ingest_line("{broken") {
        Err(ConnectionError::Malformed { kind, raw }) => {
            assert_eq!(kind, MalformedKind::Parse);
            assert_eq!(raw, "{broken");
        }
        other => panic!("expected a parse failure, got {:?}", other),
    }
    match conn.ingest_line("{\"jsonrpc\":\"2.0\",\"id\":1,\"method\":7}") {
        Err(ConnectionError::Malformed { kind, raw }) => {
            assert_eq!(kind, MalformedKind::Decode);
            assert_eq!(raw, "{\"jsonrpc\":\"2.0\",\"id\":1,\"method\":7}");
        }
        other => panic!("expected a decode failure, got {:?}", other),
    }
    match conn.ingest_line("{\"jsonrpc\":\"2.0\"}") {
        Err(ConnectionError::Malformed { kind, raw: _ }) => {
            assert_eq!(kind, MalformedKind::Classify);
        }
        other => panic!("expected a classification failure, got {:?}", other),
    }
    assert_eq!(conn.take_message(), None);
}
