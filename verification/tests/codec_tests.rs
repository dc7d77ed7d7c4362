//! Round trips and classification through the real text pipeline.

use mcpl_core::codec::{classify_value, decode_value, encode_message, MessageKind};
use mcpl_core::connection::McplConnection;
use mcpl_core::json::JsonValue;
use mcpl_core::json_io::{is_blank_line, parse_json_text, render_json};
use mcpl_core::types::{
    JsonRpcError, JsonRpcId, JsonRpcMessage, JsonRpcNotification, JsonRpcRequest, JsonRpcResponse,
    MalformedKind,
};

// Payload objects travel through serde_json's order-preserving map, so the
// field order written here is the order that comes back.
fn rich_params() -> JsonValue {
    JsonValue::Obj(vec![
        ("big".to_string(), JsonValue::Num("18446744073709551615".to_string())),
        ("count".to_string(), JsonValue::Int(-42)),
        ("flag".to_string(), JsonValue::Bool(true)),
        (
            "items".to_string(),
            JsonValue::Arr(vec![
                JsonValue::Int(1),
                JsonValue::Str("two".to_string()),
                JsonValue::Obj(vec![("deep".to_string(), JsonValue::Bool(false))]),
            ]),
        ),
        ("nothing".to_string(), JsonValue::Null),
        ("ratio".to_string(), JsonValue::Num("2.5".to_string())),
        ("text".to_string(), JsonValue::Str("héllo\nworld \"quoted\"".to_string())),
    ])
}

fn text_round_trip(m: JsonRpcMessage) -> JsonRpcMessage {
    let v = encode_message(m);
    let text = render_json(&v).expect("renderable");
    let parsed = parse_json_text(&text).expect("parseable");
    decode_value(parsed).expect("decodable")
}

#[test]
fn round_trip_request_number_id() {
    let req = JsonRpcRequest::new(
        JsonRpcId::Number(7),
        "initialize".to_string(),
        Some(rich_params()),
    );
    let back = text_round_trip(JsonRpcMessage::Request(req));
    let expected = JsonRpcRequest::new(
        JsonRpcId::Number(7),
        "initialize".to_string(),
        Some(rich_params()),
    );
    assert_eq!(back, JsonRpcMessage::Request(expected));
}

#[test]
fn round_trip_request_string_id() {
    let req = JsonRpcRequest::new(
        JsonRpcId::String("req-oNe".to_string()),
        "channels/open".to_string(),
        None,
    );
    let back = text_round_trip(JsonRpcMessage::Request(req));
    match back {
        JsonRpcMessage::Request(r) => {
            assert_eq!(r.id, JsonRpcId::String("req-oNe".to_string()));
            assert_eq!(r.method, "channels/open");
            assert_eq!(r.params, None);
        }
        other => panic!("expected a request, got {:?}", other),
    }
}

#[test]
fn round_trip_notification() {
    let n = JsonRpcNotification::new("featureSets/update".to_string(), Some(rich_params()));
    let v = encode_message(JsonRpcMessage::Notification(n));
    let text = render_json(&v).expect("renderable");
    assert!(!text.contains("\"id\""));
    let back = decode_value(parse_json_text(&text).expect("parseable")).expect("decodable");
    let expected =
        JsonRpcNotification::new("featureSets/update".to_string(), Some(rich_params()));
    assert_eq!(back, JsonRpcMessage::Notification(expected));
}

#[test]
fn round_trip_response_success() {
    let resp = JsonRpcResponse::success(JsonRpcId::Number(3), rich_params());
    let back = text_round_trip(JsonRpcMessage::Response(resp));
    let expected = JsonRpcResponse::success(JsonRpcId::Number(3), rich_params());
    assert_eq!(back, JsonRpcMessage::Response(expected));
}

#[test]
fn round_trip_response_error_with_data() {
    let resp = JsonRpcResponse::error(
        JsonRpcId::String("k".to_string()),
        JsonRpcError {
            code: -32005,
            message: "Checkpoint not found".to_string(),
            data: Some(JsonValue::Str("nonexistent".to_string())),
        },
    );
    let back = text_round_trip(JsonRpcMessage::Response(resp));
    match back {
        JsonRpcMessage::Response(r) => {
            assert_eq!(r.id, JsonRpcId::String("k".to_string()));
            assert_eq!(r.result, None);
            let e = r.error.expect("error object");
            assert_eq!(e.code, -32005);
            assert_eq!(e.message, "Checkpoint not found");
            assert_eq!(e.data, Some(JsonValue::Str("nonexistent".to_string())));
        }
        other => panic!("expected a response, got {:?}", other),
    }
}

#[test]
fn classification_prefers_request_over_response() {
    let v = parse_json_text("{\"jsonrpc\":\"2.0\",\"id\":1,\"method\":\"m\",\"result\":5}")
        .expect("parseable");
    assert_eq!(classify_value(&v), Some(MessageKind::Request));
    match decode_value(v) {
        Ok(JsonRpcMessage::Request(r)) => assert_eq!(r.method, "m"),
        other => panic!("expected a request, got {:?}", other),
    }
}

#[test]
fn classification_rejects_shapeless_objects() {
    let v = parse_json_text("{\"jsonrpc\":\"2.0\",\"foo\":1}").expect("parseable");
    assert_eq!(classify_value(&v), None);
    assert_eq!(decode_value(v), Err(MalformedKind::Classify));

    let arr = parse_json_text("[1,2,3]").expect("parseable");
    assert_eq!(decode_value(arr), Err(MalformedKind::Classify));

    let id_only = parse_json_text("{\"jsonrpc\":\"2.0\",\"id\":4}").expect("parseable");
    assert_eq!(decode_value(id_only), Err(MalformedKind::Classify));
}

#[test]
fn typed_decode_failures_are_distinct_from_classification() {
    let float_id = parse_json_text("{\"jsonrpc\":\"2.0\",\"id\":1.5,\"method\":\"x\"}").unwrap();
    assert_eq!(classify_value(&float_id), Some(MessageKind::Request));
    assert_eq!(decode_value(float_id), Err(MalformedKind::Decode));

    let bad_method = parse_json_text("{\"jsonrpc\":\"2.0\",\"id\":1,\"method\":5}").unwrap();
    assert_eq!(decode_value(bad_method), Err(MalformedKind::Decode));

    let no_tag = parse_json_text("{\"id\":1,\"method\":\"x\"}").unwrap();
    assert_eq!(decode_value(no_tag), Err(MalformedKind::Decode));

    let both = parse_json_text("{\"jsonrpc\":\"2.0\",\"id\":1,\"result\":1,\"error\":{\"code\":1,\"message\":\"m\"}}")
        .unwrap();
    assert_eq!(decode_value(both), Err(MalformedKind::Decode));

    let big_code = parse_json_text(
        "{\"jsonrpc\":\"2.0\",\"id\":1,\"error\":{\"code\":3000000000,\"message\":\"m\"}}",
    )
    .unwrap();
    assert_eq!(decode_value(big_code), Err(MalformedKind::Decode));

    let null_error = parse_json_text("{\"jsonrpc\":\"2.0\",\"id\":1,\"error\":null}").unwrap();
    assert_eq!(decode_value(null_error), Err(MalformedKind::Decode));
}

#[test]
fn null_result_is_a_null_success() {
    let v = parse_json_text("{\"jsonrpc\":\"2.0\",\"id\":1,\"result\":null}").unwrap();
    match decode_value(v) {
        Ok(JsonRpcMessage::Response(r)) => {
            assert_eq!(r.result, Some(JsonValue::Null));
            assert_eq!(r.error, None);
        }
        other => panic!("expected a response, got {:?}", other),
    }
}

#[test]
fn frame_is_one_line_even_with_embedded_newlines() {
    let req = JsonRpcRequest::new(
        JsonRpcId::Number(1),
        "push/event".to_string(),
        Some(JsonValue::Str("line one\nline two\r\n".to_string())),
    );
    let line = McplConnection::encode_frame(JsonRpcMessage::Request(req)).expect("framable");
    assert!(line.ends_with('\n'));
    assert_eq!(line.matches('\n').count(), 1);
    let back = decode_value(parse_json_text(&line).expect("parseable")).expect("decodable");
    match back {
        JsonRpcMessage::Request(r) => {
            assert_eq!(r.params, Some(JsonValue::Str("line one\nline two\r\n".to_string())));
        }
        other => panic!("expected a request, got {:?}", other),
    }
}

#[test]
fn render_rejects_number_text_that_is_not_a_number() {
    let bad = JsonValue::Obj(vec![("n".to_string(), JsonValue::Num("abc".to_string()))]);
    assert_eq!(render_json(&bad), None);
}

#[test]
fn blank_lines_are_blank() {
    assert!(is_blank_line(""));
    assert!(is_blank_line(" \t\r\n"));
    assert!(!is_blank_line(" {} "));
}

#[test]
fn parse_rejects_garbage() {
    assert_eq!(parse_json_text("{not json"), None);
    assert!(parse_json_text(" {\"a\": 1} \n").is_some());
}

#[test]
fn extreme_integer_values_survive_the_trip() {
    let req = JsonRpcRequest::new(
        JsonRpcId::Number(i64::MAX),
        "model/info".to_string(),
        Some(JsonValue::Int(i64::MIN)),
    );
    let back = text_round_trip(JsonRpcMessage::Request(req));
    match back {
        JsonRpcMessage::Request(r) => {
            assert_eq!(r.id, JsonRpcId::Number(i64::MAX));
            assert_eq!(r.params, Some(JsonValue::Int(i64::MIN)));
        }
        other => panic!("expected a request, got {:?}", other),
    }

    let resp = JsonRpcResponse::error(
        JsonRpcId::Number(0),
        JsonRpcError { code: i32::MIN, message: String::new(), data: None },
    );
    match text_round_trip(JsonRpcMessage::Response(resp)) {
        JsonRpcMessage::Response(r) => {
            let e = r.error.expect("error object");
            assert_eq!(e.code, i32::MIN);
            assert_eq!(e.message, "");
        }
        other => panic!("expected a response, got {:?}", other),
    }
}

#[test]
fn payload_field_order_is_preserved() {
    let params = JsonValue::Obj(vec![
        ("zeta".to_string(), JsonValue::Int(1)),
        ("alpha".to_string(), JsonValue::Int(2)),
    ]);
    let back = text_round_trip(JsonRpcMessage::Request(JsonRpcRequest::new(
        JsonRpcId::Number(1),
        "model/info".to_string(),
        Some(params),
    )));
    match back {
        JsonRpcMessage::Request(r) => {
            let expected = JsonValue::Obj(vec![
                ("zeta".to_string(), JsonValue::Int(1)),
                ("alpha".to_string(), JsonValue::Int(2)),
            ]);
            assert_eq!(r.params, Some(expected));
        }
        other => panic!("expected a request, got {:?}", other),
    }
}

#[test]
fn integer_number_text_normalizes_to_an_integer() {
    // `Num` is meant for numbers outside i64; text that denotes an i64 still
    // renders, and comes back as the integer it denotes.
    let back = text_round_trip(JsonRpcMessage::Request(JsonRpcRequest::new(
        JsonRpcId::Number(1),
        "model/info".to_string(),
        Some(JsonValue::Num("5".to_string())),
    )));
    match back {
        JsonRpcMessage::Request(r) => assert_eq!(r.params, Some(JsonValue::Int(5))),
        other => panic!("expected a request, got {:?}", other),
    }
}
