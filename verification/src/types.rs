//! JSON-RPC 2.0 message types for the MCPL transport.

use vstd::prelude::*;

use crate::json::JsonValue;

verus! {

/// The protocol version tag carried by every message.
pub open spec fn protocol_tag() -> Seq<char> {
    "2.0"@
}

/// A correlation identifier: either an integer or a string. Identifiers the
/// peer chose are opaque values, echoed back unchanged in a response.
#[derive(Debug, Clone, PartialEq, Eq)]
pub enum JsonRpcId {
    Number(i64),
    String(String),
}

impl From<i64> for JsonRpcId {
    fn from(n: i64) -> (r: JsonRpcId) {
        JsonRpcId::Number(n)
    }
}

impl vstd::std_specs::convert::FromSpecImpl<i64> for JsonRpcId {
    open spec fn obeys_from_spec() -> bool {
        true
    }

    open spec fn from_spec(n: i64) -> JsonRpcId {
        JsonRpcId::Number(n)
    }
}

impl From<String> for JsonRpcId {
    fn from(s: String) -> (r: JsonRpcId) {
        JsonRpcId::String(s)
    }
}

impl vstd::std_specs::convert::FromSpecImpl<String> for JsonRpcId {
    open spec fn obeys_from_spec() -> bool {
        true
    }

    open spec fn from_spec(s: String) -> JsonRpcId {
        JsonRpcId::String(s)
    }
}

/// The error object a peer attaches to a failed response.
#[derive(Debug, PartialEq, Eq)]
pub struct JsonRpcError {
    pub code: i32,
    pub message: String,
    pub data: Option<JsonValue>,
}

/// A call that expects a response: identifier and method are both required.
#[derive(Debug, PartialEq, Eq)]
pub struct JsonRpcRequest {
    pub jsonrpc: String,
    pub id: JsonRpcId,
    pub method: String,
    pub params: Option<JsonValue>,
}

/// An answer to a request: carries the originating identifier and exactly one
/// of a result payload or an error object.
#[derive(Debug, PartialEq, Eq)]
pub struct JsonRpcResponse {
    pub jsonrpc: String,
    pub id: JsonRpcId,
    pub result: Option<JsonValue>,
    pub error: Option<JsonRpcError>,
}

/// A one-way message: a method but no identifier, so no response is owed.
#[derive(Debug, PartialEq, Eq)]
pub struct JsonRpcNotification {
    pub jsonrpc: String,
    pub method: String,
    pub params: Option<JsonValue>,
}

/// Any message that can travel on the wire.
#[derive(Debug, PartialEq, Eq)]
pub enum JsonRpcMessage {
    Request(JsonRpcRequest),
    Response(JsonRpcResponse),
    Notification(JsonRpcNotification),
}

impl JsonRpcResponse {
    /// A response is well formed when it carries exactly one of result/error.
    pub open spec fn wf(self) -> bool {
        self.result is Some <==> self.error is None
    }

    pub fn success(id: JsonRpcId, result: JsonValue) -> (r: JsonRpcResponse)
        ensures
            r.jsonrpc@ == protocol_tag(),
            r.id == id,
            r.result == Some(result),
            r.error is None,
            r.wf(),
    {
        JsonRpcResponse {
            jsonrpc: String::from_str("2.0"),
            id,
            result: Some(result),
            error: None,
        }
    }

    pub fn error(id: JsonRpcId, error: JsonRpcError) -> (r: JsonRpcResponse)
        ensures
            r.jsonrpc@ == protocol_tag(),
            r.id == id,
            r.result is None,
            r.error == Some(error),
            r.wf(),
    {
        JsonRpcResponse {
            jsonrpc: String::from_str("2.0"),
            id,
            result: None,
            error: Some(error),
        }
    }
}

impl JsonRpcMessage {
    /// Responses must carry exactly one of result/error; the other shapes are
    /// well formed by construction.
    pub open spec fn wf(self) -> bool {
        match self {
            JsonRpcMessage::Response(r) => r.wf(),
            _ => true,
        }
    }
}

impl JsonRpcRequest {
    pub fn new(id: JsonRpcId, method: String, params: Option<JsonValue>) -> (r: JsonRpcRequest)
        ensures
            r.jsonrpc@ == protocol_tag(),
            r.id == id,
            r.method == method,
            r.params == params,
    {
        JsonRpcRequest { jsonrpc: String::from_str("2.0"), id, method, params }
    }
}

impl JsonRpcNotification {
    pub fn new(method: String, params: Option<JsonValue>) -> (r: JsonRpcNotification)
        ensures
            r.jsonrpc@ == protocol_tag(),
            r.method == method,
            r.params == params,
    {
        JsonRpcNotification { jsonrpc: String::from_str("2.0"), method, params }
    }
}

/// Which step of handling an inbound line failed.
#[derive(Debug, Clone, Copy, PartialEq, Eq, Structural)]
pub enum MalformedKind {
    /// The line is not valid JSON.
    Parse,
    /// The line is valid JSON but matches none of the three message shapes.
    Classify,
    /// The line classified, but a required field has the wrong shape.
    Decode,
}

/// What a connection operation can report. A transport fault, a closed
/// stream and a malformed line are fatal to the connection; an RPC error is
/// a normal protocol outcome of one call.
#[derive(Debug, Clone, PartialEq, Eq)]
pub enum ConnectionError {
    /// An I/O fault reported by the underlying stream.
    Transport(String),
    /// End of stream: the peer closed the connection.
    Closed,
    /// A caller-imposed deadline elapsed while waiting.
    Timeout,
    /// An inbound line could not be understood; carries the offending text.
    Malformed { kind: MalformedKind, raw: String },
    /// The peer answered a call with an error object.
    Rpc { code: i32, message: String },
}

pub const ERR_FEATURE_SET_NOT_ENABLED: i32 = -32001;

pub const ERR_UNKNOWN_FEATURE_SET: i32 = -32003;

pub const ERR_CHECKPOINT_NOT_FOUND: i32 = -32005;

pub const ERR_CHANNEL_NOT_PERMITTED: i32 = -32017;

pub const ERR_UNKNOWN_CHANNEL: i32 = -32023;

pub const ERR_CHANNEL_OPEN_FAILED: i32 = -32024;

/// A tagged content payload, opaque to the connection core.
#[derive(Debug, Clone, PartialEq, Eq)]
pub enum ContentBlock {
    Text { text: String },
    Image { data: Option<String>, uri: Option<String>, mime_type: Option<String> },
    Audio { data: Option<String>, uri: Option<String>, mime_type: Option<String> },
    Resource { uri: String },
}

impl ContentBlock {
    pub fn text(text: String) -> (r: ContentBlock)
        ensures
            r == (ContentBlock::Text { text }),
    {
        ContentBlock::Text { text }
    }
}

} // verus!
