//! Structural classification and typed decoding of JSON-RPC messages.
//!
//! The wire carries no explicit discriminant, so an inbound object is
//! classified by which fields it has, in a fixed priority order:
//! an identifier and a method make a request; an identifier with a result or
//! an error makes a response; a method without an identifier makes a
//! notification; anything else is malformed. Typed decoding happens only
//! after classification, and a failure there is reported as a distinct
//! malformed kind.

use vstd::prelude::*;

use crate::json::{
    JsonValue, JsonDoc, doc_of, depth_le, lookup_field, obj_lookup, has_key, get_field,
    lemma_lookup_step, lemma_lookup_found, lemma_lookup_absent, lemma_depth_le_fields_all,
    lemma_keys_distinct_all,
};
use crate::json_io::{
    printable, JSON_DEPTH_LIMIT, lemma_printable_fields_all,
};
use crate::types::{
    JsonRpcId, JsonRpcError, JsonRpcRequest, JsonRpcResponse, JsonRpcNotification, JsonRpcMessage,
    MalformedKind,
};

verus! {

/// The three message shapes an inbound line can classify into.
#[derive(Debug, PartialEq, Eq, Structural)]
pub enum MessageKind {
    Request,
    Response,
    Notification,
}

/// The classification rules, applied in priority order to the parsed value.
pub open spec fn spec_classify(v: JsonValue) -> Option<MessageKind> {
    let id = has_key(v, "id"@);
    let method = has_key(v, "method"@);
    let result = has_key(v, "result"@);
    let error = has_key(v, "error"@);
    if id && method {
        Some(MessageKind::Request)
    } else if id && (result || error) {
        Some(MessageKind::Response)
    } else if method && !id {
        Some(MessageKind::Notification)
    } else {
        None
    }
}

/// An identifier is an integer or a string; any other shape is rejected.
pub open spec fn spec_decode_id(v: JsonValue) -> Option<JsonRpcId> {
    match v {
        JsonValue::Int(n) => Some(JsonRpcId::Number(n)),
        JsonValue::Str(s) => Some(JsonRpcId::String(s)),
        _ => None,
    }
}

/// An error object needs an integer `code` that fits `i32` and a string
/// `message`; `data` is carried through as found.
pub open spec fn spec_decode_error(v: JsonValue) -> Option<JsonRpcError> {
    match (obj_lookup(v, "code"@), obj_lookup(v, "message"@)) {
        (Some(JsonValue::Int(code)), Some(JsonValue::Str(message))) => {
            if i32::MIN <= code <= i32::MAX {
                Some(JsonRpcError { code: code as i32, message, data: obj_lookup(v, "data"@) })
            } else {
                None
            }
        }
        _ => None,
    }
}

/// Typed decoding of a classified value. Every message needs the protocol
/// tag as a string; a response must carry exactly one of result/error.
pub open spec fn spec_decode(v: JsonValue) -> Result<JsonRpcMessage, MalformedKind> {
    match spec_classify(v) {
        None => Err(MalformedKind::Classify),
        Some(MessageKind::Request) => match (
            obj_lookup(v, "jsonrpc"@),
            obj_lookup(v, "id"@),
            obj_lookup(v, "method"@),
        ) {
            (Some(JsonValue::Str(tag)), Some(idv), Some(JsonValue::Str(method))) => match spec_decode_id(idv) {
                Some(id) => Ok(JsonRpcMessage::Request(JsonRpcRequest {
                    jsonrpc: tag,
                    id,
                    method,
                    params: obj_lookup(v, "params"@),
                })),
                None => Err(MalformedKind::Decode),
            },
            _ => Err(MalformedKind::Decode),
        },
        Some(MessageKind::Response) => match (obj_lookup(v, "jsonrpc"@), obj_lookup(v, "id"@)) {
            (Some(JsonValue::Str(tag)), Some(idv)) => match spec_decode_id(idv) {
                Some(id) => {
                    let result = obj_lookup(v, "result"@);
                    let error = obj_lookup(v, "error"@);
                    if result is Some && error is Some {
                        Err(MalformedKind::Decode)
                    } else if result is Some {
                        Ok(JsonRpcMessage::Response(JsonRpcResponse {
                            jsonrpc: tag,
                            id,
                            result,
                            error: None,
                        }))
                    } else {
                        match error {
                            Some(ev) => match spec_decode_error(ev) {
                                Some(e) => Ok(JsonRpcMessage::Response(JsonRpcResponse {
                                    jsonrpc: tag,
                                    id,
                                    result: None,
                                    error: Some(e),
                                })),
                                None => Err(MalformedKind::Decode),
                            },
                            None => Err(MalformedKind::Decode),
                        }
                    }
                }
                None => Err(MalformedKind::Decode),
            },
            _ => Err(MalformedKind::Decode),
        },
        Some(MessageKind::Notification) => match (
            obj_lookup(v, "jsonrpc"@),
            obj_lookup(v, "method"@),
        ) {
            (Some(JsonValue::Str(tag)), Some(JsonValue::Str(method))) => Ok(
                JsonRpcMessage::Notification(JsonRpcNotification {
                    jsonrpc: tag,
                    method,
                    params: obj_lookup(v, "params"@),
                }),
            ),
            _ => Err(MalformedKind::Decode),
        },
    }
}

/// The value an identifier is written as.
pub open spec fn spec_encode_id(id: JsonRpcId) -> JsonValue {
    match id {
        JsonRpcId::Number(n) => JsonValue::Int(n),
        JsonRpcId::String(s) => JsonValue::Str(s),
    }
}

/// `v` is an object writing the error `e`: its code as an integer, its
/// message as a string, and its data exactly when `e` carries some.
pub open spec fn encodes_error(e: JsonRpcError, v: JsonValue) -> bool {
    &&& v is Obj
    &&& obj_lookup(v, "code"@) == Some(JsonValue::Int(e.code as i64))
    &&& obj_lookup(v, "message"@) == Some(JsonValue::Str(e.message))
    &&& obj_lookup(v, "data"@) == e.data
}

/// `v` is an object writing the request `r`: tag, identifier and method
/// present, params exactly when `r` carries some, and no result or error
/// field.
pub open spec fn encodes_request(r: JsonRpcRequest, v: JsonValue) -> bool {
    &&& v is Obj
    &&& obj_lookup(v, "jsonrpc"@) == Some(JsonValue::Str(r.jsonrpc))
    &&& obj_lookup(v, "id"@) == Some(spec_encode_id(r.id))
    &&& obj_lookup(v, "method"@) == Some(JsonValue::Str(r.method))
    &&& obj_lookup(v, "params"@) == r.params
    &&& obj_lookup(v, "result"@) is None
    &&& obj_lookup(v, "error"@) is None
}

/// `v` is an object writing the response `r`: tag and identifier present, no
/// method field, the result field exactly `r.result`, and an error object
/// exactly when `r` carries one.
pub open spec fn encodes_response(r: JsonRpcResponse, v: JsonValue) -> bool {
    &&& v is Obj
    &&& obj_lookup(v, "jsonrpc"@) == Some(JsonValue::Str(r.jsonrpc))
    &&& obj_lookup(v, "id"@) == Some(spec_encode_id(r.id))
    &&& obj_lookup(v, "method"@) is None
    &&& obj_lookup(v, "result"@) == r.result
    &&& match r.error {
        Some(e) => obj_lookup(v, "error"@) matches Some(ev) && encodes_error(e, ev),
        None => obj_lookup(v, "error"@) is None,
    }
}

/// `v` is an object writing the notification `n`: tag and method present,
/// params exactly when `n` carries some, and no identifier field.
pub open spec fn encodes_notification(n: JsonRpcNotification, v: JsonValue) -> bool {
    &&& v is Obj
    &&& obj_lookup(v, "jsonrpc"@) == Some(JsonValue::Str(n.jsonrpc))
    &&& obj_lookup(v, "method"@) == Some(JsonValue::Str(n.method))
    &&& obj_lookup(v, "params"@) == n.params
    &&& obj_lookup(v, "id"@) is None
}

/// `v` writes the message `m`, in whichever of the three shapes `m` has.
pub open spec fn encodes_message(m: JsonRpcMessage, v: JsonValue) -> bool {
    match m {
        JsonRpcMessage::Request(r) => encodes_request(r, v),
        JsonRpcMessage::Response(r) => encodes_response(r, v),
        JsonRpcMessage::Notification(n) => encodes_notification(n, v),
    }
}

/// The shape a message classifies as.
pub open spec fn kind_of(m: JsonRpcMessage) -> MessageKind {
    match m {
        JsonRpcMessage::Request(_) => MessageKind::Request,
        JsonRpcMessage::Response(_) => MessageKind::Response,
        JsonRpcMessage::Notification(_) => MessageKind::Notification,
    }
}

/// Classify a parsed value by field presence, in the fixed priority order.
pub fn classify_value(v: &JsonValue) -> (r: Option<MessageKind>)
    ensures
        r == spec_classify(*v),
{
    match v {
        JsonValue::Obj(fields) => {
            let id = get_field(fields, "id").is_some();
            let method = get_field(fields, "method").is_some();
            let result = get_field(fields, "result").is_some();
            let error = get_field(fields, "error").is_some();
            if id && method {
                Some(MessageKind::Request)
            } else if id && (result || error) {
                Some(MessageKind::Response)
            } else if method && !id {
                Some(MessageKind::Notification)
            } else {
                None
            }
        }
        _ => None,
    }
}

/// Turn an identifier value into the typed identifier, if it has a legal shape.
fn decode_id(v: JsonValue) -> (r: Option<JsonRpcId>)
    ensures
        r == spec_decode_id(v),
{
    match v {
        JsonValue::Int(n) => Some(JsonRpcId::Number(n)),
        JsonValue::Str(s) => Some(JsonRpcId::String(s)),
        _ => None,
    }
}

/// The six envelope keys are pairwise distinct.
proof fn lemma_envelope_keys_distinct()
    ensures
        "jsonrpc"@ != "id"@,
        "jsonrpc"@ != "method"@,
        "jsonrpc"@ != "result"@,
        "jsonrpc"@ != "error"@,
        "jsonrpc"@ != "params"@,
        "id"@ != "method"@,
        "id"@ != "result"@,
        "id"@ != "error"@,
        "id"@ != "params"@,
        "method"@ != "result"@,
        "method"@ != "error"@,
        "method"@ != "params"@,
        "result"@ != "error"@,
        "result"@ != "params"@,
        "error"@ != "params"@,
{
    reveal_strlit("jsonrpc");
    reveal_strlit("id");
    reveal_strlit("method");
    reveal_strlit("result");
    reveal_strlit("error");
    reveal_strlit("params");
    assert("jsonrpc"@.len() == 7 && "jsonrpc"@[0] == 'j');
    assert("id"@.len() == 2 && "id"@[0] == 'i');
    assert("method"@.len() == 6 && "method"@[0] == 'm');
    assert("result"@.len() == 6 && "result"@[0] == 'r');
    assert("error"@.len() == 5 && "error"@[0] == 'e');
    assert("params"@.len() == 6 && "params"@[0] == 'p');
}

/// The three error-object keys are pairwise distinct.
proof fn lemma_error_keys_distinct()
    ensures
        "code"@ != "message"@,
        "code"@ != "data"@,
        "message"@ != "data"@,
{
    reveal_strlit("code");
    reveal_strlit("message");
    reveal_strlit("data");
    assert("code"@.len() == 4 && "code"@[0] == 'c');
    assert("message"@.len() == 7 && "message"@[0] == 'm');
    assert("data"@.len() == 4 && "data"@[0] == 'd');
}

/// The fields of one envelope object, each holding what a lookup of its key
/// finds: the first field so named, or nothing.
struct EnvelopeFields {
    tag: Option<JsonValue>,
    id: Option<JsonValue>,
    method: Option<JsonValue>,
    result: Option<JsonValue>,
    error: Option<JsonValue>,
    params: Option<JsonValue>,
}

/// Take an envelope object apart into its six interesting fields, walking the
/// fields from the back so that an earlier field overwrites a later duplicate.
fn split_envelope(fields: Vec<(String, JsonValue)>) -> (r: EnvelopeFields)
    ensures
        r.tag == lookup_field(fields@, "jsonrpc"@),
        r.id == lookup_field(fields@, "id"@),
        r.method == lookup_field(fields@, "method"@),
        r.result == lookup_field(fields@, "result"@),
        r.error == lookup_field(fields@, "error"@),
        r.params == lookup_field(fields@, "params"@),
{
    let k_tag = String::from_str("jsonrpc");
    let k_id = String::from_str("id");
    let k_method = String::from_str("method");
    let k_result = String::from_str("result");
    let k_error = String::from_str("error");
    let k_params = String::from_str("params");
    let ghost fs = fields@;
    let mut fields = fields;
    let mut r = EnvelopeFields {
        tag: None,
        id: None,
        method: None,
        result: None,
        error: None,
        params: None,
    };
    while fields.len() > 0
        invariant
            k_tag@ == "jsonrpc"@,
            k_id@ == "id"@,
            k_method@ == "method"@,
            k_result@ == "result"@,
            k_error@ == "error"@,
            k_params@ == "params"@,
            fields@.len() <= fs.len(),
            fields@ =~= fs.take(fields@.len() as int),
            r.tag == lookup_field(fs.skip(fields@.len() as int), "jsonrpc"@),
            r.id == lookup_field(fs.skip(fields@.len() as int), "id"@),
            r.method == lookup_field(fs.skip(fields@.len() as int), "method"@),
            r.result == lookup_field(fs.skip(fields@.len() as int), "result"@),
            r.error == lookup_field(fs.skip(fields@.len() as int), "error"@),
            r.params == lookup_field(fs.skip(fields@.len() as int), "params"@),
        decreases fields.len(),
    {
        let ghost len = fields@.len() as int;
        proof {
            assert(fields@[len - 1] == fs[len - 1]);
        }
        let pair = fields.pop().unwrap();
        proof {
            assert(pair == fs[len - 1]);
            assert(fs.skip(len - 1)[0] == fs[len - 1]);
            assert(fs.skip(len - 1).skip(1) =~= fs.skip(len));
            assert(fields@ =~= fs.take(len - 1));
        }
        let (key, val) = pair;
        if key == k_tag {
            r.tag = Some(val);
        } else if key == k_id {
            r.id = Some(val);
        } else if key == k_method {
            r.method = Some(val);
        } else if key == k_result {
            r.result = Some(val);
        } else if key == k_error {
            r.error = Some(val);
        } else if key == k_params {
            r.params = Some(val);
        }
        proof {
            lemma_envelope_keys_distinct();
            lemma_lookup_step(fs.skip(len - 1), "jsonrpc"@);
            lemma_lookup_step(fs.skip(len - 1), "id"@);
            lemma_lookup_step(fs.skip(len - 1), "method"@);
            lemma_lookup_step(fs.skip(len - 1), "result"@);
            lemma_lookup_step(fs.skip(len - 1), "error"@);
            lemma_lookup_step(fs.skip(len - 1), "params"@);
        }
    }
    proof {
        assert(fs.skip(0) =~= fs);
    }
    r
}

/// Decode an error object, if it has the required shape.
fn decode_error(v: JsonValue) -> (r: Option<JsonRpcError>)
    ensures
        r == spec_decode_error(v),
{
    let fields = match v {
        JsonValue::Obj(fields) => fields,
        _ => {
            return None;
        },
    };
    let k_code = String::from_str("code");
    let k_message = String::from_str("message");
    let k_data = String::from_str("data");
    let ghost fs = fields@;
    let mut fields = fields;
    let mut f_code: Option<JsonValue> = None;
    let mut f_message: Option<JsonValue> = None;
    let mut f_data: Option<JsonValue> = None;
    while fields.len() > 0
        invariant
            k_code@ == "code"@,
            k_message@ == "message"@,
            k_data@ == "data"@,
            fields@.len() <= fs.len(),
            fields@ =~= fs.take(fields@.len() as int),
            f_code == lookup_field(fs.skip(fields@.len() as int), "code"@),
            f_message == lookup_field(fs.skip(fields@.len() as int), "message"@),
            f_data == lookup_field(fs.skip(fields@.len() as int), "data"@),
        decreases fields.len(),
    {
        let ghost len = fields@.len() as int;
        proof {
            assert(fields@[len - 1] == fs[len - 1]);
        }
        let pair = fields.pop().unwrap();
        proof {
            assert(pair == fs[len - 1]);
            assert(fs.skip(len - 1)[0] == fs[len - 1]);
            assert(fs.skip(len - 1).skip(1) =~= fs.skip(len));
            assert(fields@ =~= fs.take(len - 1));
        }
        let (key, val) = pair;
        if key == k_code {
            f_code = Some(val);
        } else if key == k_message {
            f_message = Some(val);
        } else if key == k_data {
            f_data = Some(val);
        }
        proof {
            lemma_error_keys_distinct();
            lemma_lookup_step(fs.skip(len - 1), "code"@);
            lemma_lookup_step(fs.skip(len - 1), "message"@);
            lemma_lookup_step(fs.skip(len - 1), "data"@);
        }
    }
    proof {
        assert(fs.skip(0) =~= fs);
    }
    match (f_code, f_message) {
        (Some(JsonValue::Int(code)), Some(JsonValue::Str(message))) => {
            if i32::MIN as i64 <= code && code <= i32::MAX as i64 {
                Some(JsonRpcError { code: code as i32, message, data: f_data })
            } else {
                None
            }
        }
        _ => None,
    }
}

/// Decode one parsed value into a typed message: classification by field
/// presence first, then typed extraction of the classified shape.
pub fn decode_value(v: JsonValue) -> (r: Result<JsonRpcMessage, MalformedKind>)
    ensures
        r == spec_decode(v),
{
    let fields = match v {
        JsonValue::Obj(fields) => fields,
        _ => {
            return Err(MalformedKind::Classify);
        },
    };
    let env = split_envelope(fields);
    let has_id = env.id.is_some();
    let has_method = env.method.is_some();
    let has_result = env.result.is_some();
    let has_error = env.error.is_some();
    if has_id && has_method {
        match (env.tag, env.id, env.method) {
            (Some(JsonValue::Str(tag)), Some(idv), Some(JsonValue::Str(method))) => {
                match decode_id(idv) {
                    Some(id) => Ok(JsonRpcMessage::Request(JsonRpcRequest {
                        jsonrpc: tag,
                        id,
                        method,
                        params: env.params,
                    })),
                    None => Err(MalformedKind::Decode),
                }
            }
            _ => Err(MalformedKind::Decode),
        }
    } else if has_id && (has_result || has_error) {
        match (env.tag, env.id) {
            (Some(JsonValue::Str(tag)), Some(idv)) => match decode_id(idv) {
                Some(id) => {
                    if has_result && has_error {
                        Err(MalformedKind::Decode)
                    } else if has_result {
                        Ok(JsonRpcMessage::Response(JsonRpcResponse {
                            jsonrpc: tag,
                            id,
                            result: env.result,
                            error: None,
                        }))
                    } else {
                        match env.error {
                            Some(ev) => match decode_error(ev) {
                                Some(e) => Ok(JsonRpcMessage::Response(JsonRpcResponse {
                                    jsonrpc: tag,
                                    id,
                                    result: None,
                                    error: Some(e),
                                })),
                                None => Err(MalformedKind::Decode),
                            },
                            None => Err(MalformedKind::Decode),
                        }
                    }
                }
                None => Err(MalformedKind::Decode),
            },
            _ => Err(MalformedKind::Decode),
        }
    } else if has_method && !has_id {
        match (env.tag, env.method) {
            (Some(JsonValue::Str(tag)), Some(JsonValue::Str(method))) => Ok(
                JsonRpcMessage::Notification(JsonRpcNotification {
                    jsonrpc: tag,
                    method,
                    params: env.params,
                }),
            ),
            _ => Err(MalformedKind::Decode),
        }
    } else {
        Err(MalformedKind::Classify)
    }
}

/// A payload the printer can frame: printable and within depth `n`.
pub open spec fn payload_ok(p: Option<JsonValue>, n: int) -> bool {
    match p {
        Some(j) => printable(doc_of(j)) && depth_le(doc_of(j), n),
        None => true,
    }
}

/// A message whose envelope the printer is owed to frame: its payloads are
/// printable and leave room for the envelope around them.
pub open spec fn frameable(m: JsonRpcMessage) -> bool {
    match m {
        JsonRpcMessage::Request(q) => payload_ok(q.params, JSON_DEPTH_LIMIT as int - 1),
        JsonRpcMessage::Notification(n) => payload_ok(n.params, JSON_DEPTH_LIMIT as int - 1),
        JsonRpcMessage::Response(r) => payload_ok(r.result, JSON_DEPTH_LIMIT as int - 1)
            && match r.error {
            Some(e) => payload_ok(e.data, JSON_DEPTH_LIMIT as int - 2),
            None => true,
        },
    }
}

/// An object document whose field values are printable and shallow, under
/// pairwise distinct keys, is printable and stays within depth `n`.
proof fn lemma_obj_doc_ok(fseq: Seq<(Seq<char>, JsonDoc)>, n: int)
    requires
        n >= 1,
        forall|i: int|
            0 <= i < fseq.len() ==> printable((#[trigger] fseq[i]).1) && depth_le(
                fseq[i].1,
                n - 1,
            ),
        forall|i: int, j: int|
            0 <= i < j < fseq.len() ==> (#[trigger] fseq[i]).0 != (#[trigger] fseq[j]).0,
    ensures
        printable(JsonDoc::Obj(fseq)),
        depth_le(JsonDoc::Obj(fseq), n),
{
    lemma_printable_fields_all(fseq, 0);
    lemma_depth_le_fields_all(fseq, n - 1, 0);
    lemma_keys_distinct_all(fseq, 0);
}

/// Write an identifier as a value.
fn encode_id(id: JsonRpcId) -> (r: JsonValue)
    ensures
        r == spec_encode_id(id),
{
    match id {
        JsonRpcId::Number(n) => JsonValue::Int(n),
        JsonRpcId::String(s) => JsonValue::Str(s),
    }
}

/// Write an error as an object with its code, message and optional data.
fn encode_error_obj(e: JsonRpcError) -> (v: JsonValue)
    ensures
        encodes_error(e, v),
        payload_ok(e.data, JSON_DEPTH_LIMIT as int - 2) ==> printable(doc_of(v)) && depth_le(
            doc_of(v),
            JSON_DEPTH_LIMIT as int - 1,
        ),
{
    let ghost ge = e;
    let mut fields: Vec<(String, JsonValue)> = Vec::new();
    fields.push((String::from_str("code"), JsonValue::Int(e.code as i64)));
    fields.push((String::from_str("message"), JsonValue::Str(e.message)));
    match e.data {
        Some(d) => fields.push((String::from_str("data"), d)),
        None => {}
    }
    let v = JsonValue::Obj(fields);
    proof {
        lemma_error_keys_distinct();
        assert(fields@[0].0@ == "code"@);
        assert(fields@[1].0@ == "message"@);
        lemma_lookup_found(fields@, "code"@, 0);
        lemma_lookup_found(fields@, "message"@, 1);
        if ge.data is Some {
            assert(fields@[2].0@ == "data"@);
            lemma_lookup_found(fields@, "data"@, 2);
        } else {
            assert(fields@.len() == 2);
            lemma_lookup_absent(fields@, "data"@);
        }
        if payload_ok(ge.data, JSON_DEPTH_LIMIT as int - 2) {
            let fseq = doc_of(v)->Obj_0;
            assert(fields@[0].1 == JsonValue::Int(ge.code as i64));
            assert(fields@[1].1 == JsonValue::Str(ge.message));
            assert forall|t: int|
                0 <= t < fseq.len() implies printable((#[trigger] fseq[t]).1) && depth_le(
                fseq[t].1,
                JSON_DEPTH_LIMIT as int - 2,
            ) by {
                assert(fseq[t] == (fields@[t].0@, doc_of(fields@[t].1)));
            }
            assert forall|a: int, b: int|
                0 <= a < b < fseq.len() implies (#[trigger] fseq[a]).0 != (
            #[trigger] fseq[b]).0 by {
                assert(fseq[a] == (fields@[a].0@, doc_of(fields@[a].1)));
                assert(fseq[b] == (fields@[b].0@, doc_of(fields@[b].1)));
            }
            lemma_obj_doc_ok(fseq, JSON_DEPTH_LIMIT as int - 1);
            assert(doc_of(v) == JsonDoc::Obj(fseq));
        }
    }
    v
}

/// Write a message as the envelope object its shape calls for.
pub fn encode_message(m: JsonRpcMessage) -> (v: JsonValue)
    ensures
        encodes_message(m, v),
        frameable(m) ==> printable(doc_of(v)) && depth_le(doc_of(v), JSON_DEPTH_LIMIT as int),
{
    match m {
        JsonRpcMessage::Request(r) => {
            let ghost gr = r;
            let mut fields: Vec<(String, JsonValue)> = Vec::new();
            fields.push((String::from_str("jsonrpc"), JsonValue::Str(r.jsonrpc)));
            fields.push((String::from_str("id"), encode_id(r.id)));
            fields.push((String::from_str("method"), JsonValue::Str(r.method)));
            match r.params {
                Some(p) => fields.push((String::from_str("params"), p)),
                None => {}
            }
            let v = JsonValue::Obj(fields);
            proof {
                lemma_envelope_keys_distinct();
                assert(fields@[0].0@ == "jsonrpc"@);
                assert(fields@[1].0@ == "id"@);
                assert(fields@[2].0@ == "method"@);
                if gr.params is Some {
                    assert(fields@[3].0@ == "params"@);
                    lemma_lookup_found(fields@, "params"@, 3);
                } else {
                    assert(fields@.len() == 3);
                    lemma_lookup_absent(fields@, "params"@);
                }
                lemma_lookup_found(fields@, "jsonrpc"@, 0);
                lemma_lookup_found(fields@, "id"@, 1);
                lemma_lookup_found(fields@, "method"@, 2);
                lemma_lookup_absent(fields@, "result"@);
                lemma_lookup_absent(fields@, "error"@);
                if payload_ok(gr.params, JSON_DEPTH_LIMIT as int - 1) {
                    let fseq = doc_of(v)->Obj_0;
                    assert(fields@[0].1 == JsonValue::Str(gr.jsonrpc));
                    assert(fields@[1].1 == spec_encode_id(gr.id));
                    assert(fields@[2].1 == JsonValue::Str(gr.method));
                    assert forall|t: int|
                        0 <= t < fseq.len() implies printable((#[trigger] fseq[t]).1)
                        && depth_le(fseq[t].1, JSON_DEPTH_LIMIT as int - 1) by {
                        assert(fseq[t] == (fields@[t].0@, doc_of(fields@[t].1)));
                    }
                    assert forall|a: int, b: int|
                        0 <= a < b < fseq.len() implies (#[trigger] fseq[a]).0 != (
                    #[trigger] fseq[b]).0 by {
                        assert(fseq[a] == (fields@[a].0@, doc_of(fields@[a].1)));
                        assert(fseq[b] == (fields@[b].0@, doc_of(fields@[b].1)));
                    }
                    lemma_obj_doc_ok(fseq, JSON_DEPTH_LIMIT as int);
                    assert(doc_of(v) == JsonDoc::Obj(fseq));
                }
            }
            v
        }
        JsonRpcMessage::Response(r) => {
            let ghost gr = r;
            let mut fields: Vec<(String, JsonValue)> = Vec::new();
            fields.push((String::from_str("jsonrpc"), JsonValue::Str(r.jsonrpc)));
            fields.push((String::from_str("id"), encode_id(r.id)));
            match r.result {
                Some(res) => fields.push((String::from_str("result"), res)),
                None => {}
            }
            match r.error {
                Some(e) => fields.push((String::from_str("error"), encode_error_obj(e))),
                None => {}
            }
            let v = JsonValue::Obj(fields);
            proof {
                lemma_envelope_keys_distinct();
                assert(fields@[0].0@ == "jsonrpc"@);
                assert(fields@[1].0@ == "id"@);
                if gr.result is Some {
                    assert(fields@[2].0@ == "result"@);
                    lemma_lookup_found(fields@, "result"@, 2);
                } else {
                    lemma_lookup_absent(fields@, "result"@);
                }
                if gr.error is Some {
                    let at = if gr.result is Some { 3int } else { 2int };
                    assert(fields@[at].0@ == "error"@);
                    lemma_lookup_found(fields@, "error"@, at);
                } else {
                    lemma_lookup_absent(fields@, "error"@);
                }
                lemma_lookup_found(fields@, "jsonrpc"@, 0);
                lemma_lookup_found(fields@, "id"@, 1);
                lemma_lookup_absent(fields@, "method"@);
                if frameable(JsonRpcMessage::Response(gr)) {
                    let fseq = doc_of(v)->Obj_0;
                    assert(fields@[0].1 == JsonValue::Str(gr.jsonrpc));
                    assert(fields@[1].1 == spec_encode_id(gr.id));
                    assert forall|t: int|
                        0 <= t < fseq.len() implies printable((#[trigger] fseq[t]).1)
                        && depth_le(fseq[t].1, JSON_DEPTH_LIMIT as int - 1) by {
                        assert(fseq[t] == (fields@[t].0@, doc_of(fields@[t].1)));
                    }
                    assert forall|a: int, b: int|
                        0 <= a < b < fseq.len() implies (#[trigger] fseq[a]).0 != (
                    #[trigger] fseq[b]).0 by {
                        assert(fseq[a] == (fields@[a].0@, doc_of(fields@[a].1)));
                        assert(fseq[b] == (fields@[b].0@, doc_of(fields@[b].1)));
                    }
                    lemma_obj_doc_ok(fseq, JSON_DEPTH_LIMIT as int);
                    assert(doc_of(v) == JsonDoc::Obj(fseq));
                }
            }
            v
        }
        JsonRpcMessage::Notification(n) => {
            let ghost gn = n;
            let mut fields: Vec<(String, JsonValue)> = Vec::new();
            fields.push((String::from_str("jsonrpc"), JsonValue::Str(n.jsonrpc)));
            fields.push((String::from_str("method"), JsonValue::Str(n.method)));
            match n.params {
                Some(p) => fields.push((String::from_str("params"), p)),
                None => {}
            }
            let v = JsonValue::Obj(fields);
            proof {
                lemma_envelope_keys_distinct();
                assert(fields@[0].0@ == "jsonrpc"@);
                assert(fields@[1].0@ == "method"@);
                if gn.params is Some {
                    assert(fields@[2].0@ == "params"@);
                    lemma_lookup_found(fields@, "params"@, 2);
                } else {
                    assert(fields@.len() == 2);
                    lemma_lookup_absent(fields@, "params"@);
                }
                lemma_lookup_found(fields@, "jsonrpc"@, 0);
                lemma_lookup_found(fields@, "method"@, 1);
                lemma_lookup_absent(fields@, "id"@);
                if payload_ok(gn.params, JSON_DEPTH_LIMIT as int - 1) {
                    let fseq = doc_of(v)->Obj_0;
                    assert(fields@[0].1 == JsonValue::Str(gn.jsonrpc));
                    assert(fields@[1].1 == JsonValue::Str(gn.method));
                    assert forall|t: int|
                        0 <= t < fseq.len() implies printable((#[trigger] fseq[t]).1)
                        && depth_le(fseq[t].1, JSON_DEPTH_LIMIT as int - 1) by {
                        assert(fseq[t] == (fields@[t].0@, doc_of(fields@[t].1)));
                    }
                    assert forall|a: int, b: int|
                        0 <= a < b < fseq.len() implies (#[trigger] fseq[a]).0 != (
                    #[trigger] fseq[b]).0 by {
                        assert(fseq[a] == (fields@[a].0@, doc_of(fields@[a].1)));
                        assert(fseq[b] == (fields@[b].0@, doc_of(fields@[b].1)));
                    }
                    lemma_obj_doc_ok(fseq, JSON_DEPTH_LIMIT as int);
                    assert(doc_of(v) == JsonDoc::Obj(fseq));
                }
            }
            v
        }
    }
}

/// Whatever typed decoding accepts is well formed: in particular a decoded
/// response carries exactly one of result/error.
pub proof fn lemma_decode_accepts_only_wf(v: JsonValue)
    ensures
        spec_decode(v) matches Ok(m) ==> m.wf(),
{
}

/// Round trip: any value that writes a well-formed message classifies as
/// that message's shape, and typed decoding yields the message back —
/// identifier variant, method, params, result and error all preserved.
pub proof fn lemma_encode_classify_decode(m: JsonRpcMessage, v: JsonValue)
    requires
        m.wf(),
        encodes_message(m, v),
    ensures
        spec_classify(v) == Some(kind_of(m)),
        spec_decode(v) == Ok::<JsonRpcMessage, MalformedKind>(m),
{
    match m {
        JsonRpcMessage::Request(r) => {
            assert(spec_decode_id(spec_encode_id(r.id)) == Some(r.id));
        }
        JsonRpcMessage::Response(r) => {
            assert(spec_decode_id(spec_encode_id(r.id)) == Some(r.id));
            match r.error {
                Some(e) => {
                    let ev = obj_lookup(v, "error"@)->Some_0;
                    assert(spec_decode_error(ev) == Some(e));
                }
                None => {}
            }
        }
        JsonRpcMessage::Notification(_) => {}
    }
}

} // verus!
