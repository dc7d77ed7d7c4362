//! The connection core: a state machine over decoded lines.
//!
//! A connection tracks the identifier counter for calls this side makes, the
//! single outstanding local call, and the queue of peer-initiated messages
//! observed while that call was waiting. The embedding application owns the
//! byte stream: it writes the frames this module builds, reads lines, and
//! feeds each line in. Every transition — who gets an inbound response,
//! what is buffered, what is discarded — is stated and proved here.

use vstd::prelude::*;
use vstd::string::*;

use crate::json::{JsonValue, doc_of, depth_le};
use crate::json_io::{
    parse_json_text, render_json, is_blank_line, blank_bytes, spec_parsed, json_text_of,
    JSON_DEPTH_LIMIT,
};
use crate::codec::{spec_decode, decode_value, encode_message, encodes_message, frameable};
use crate::types::{
    JsonRpcId, JsonRpcRequest, JsonRpcResponse, JsonRpcNotification, JsonRpcMessage,
    ConnectionError, MalformedKind, protocol_tag,
};

verus! {

/// A peer-initiated message handed to the application: a request that owes a
/// response, or a notification that owes nothing.
#[derive(Debug, PartialEq, Eq)]
pub enum IncomingMessage {
    Request(JsonRpcRequest),
    Notification(JsonRpcNotification),
}

/// How one outstanding call resolved: the peer's result payload, or the
/// peer's error object as code and message.
#[derive(Debug, PartialEq, Eq)]
pub enum CallOutcome {
    Success(JsonValue),
    RpcFailure { code: i32, message: String },
}

/// What one inbound line did to the connection.
#[derive(Debug, PartialEq, Eq)]
pub enum Ingest {
    /// A whitespace-only keep-alive line; nothing changed.
    Blank,
    /// A peer request or notification joined the incoming queue.
    Queued,
    /// The outstanding call got its response.
    Resolved(CallOutcome),
    /// A response matching no outstanding call; discarded, worth a
    /// diagnostic, fatal to nothing.
    Orphan(JsonRpcId),
}

/// The abstract state of a connection.
pub ghost struct ConnState {
    /// The identifier of the one outstanding local call, if any.
    pub awaiting: Option<i64>,
    /// Peer-initiated messages in arrival order, not yet handed out.
    pub queued: Seq<IncomingMessage>,
    /// Every identifier this side has allocated, in allocation order.
    pub allocated: Seq<i64>,
    /// The identifier the next local call will get.
    pub next: i64,
}

impl ConnState {
    /// Identifiers are 1, 2, 3, ... in order; the counter sits one past the
    /// last; an outstanding call waits on an identifier this side allocated.
    pub open spec fn wf(self) -> bool {
        &&& 1 <= self.next
        &&& self.allocated.len() == self.next - 1
        &&& forall|i: int| 0 <= i < self.allocated.len() ==> self.allocated[i] == i + 1
        &&& match self.awaiting {
            Some(k) => 1 <= k < self.next,
            None => true,
        }
    }
}

/// What a resolved call yields: the error object wins if one is there, else
/// the result payload, with an absent result read as a null success.
pub open spec fn spec_outcome_of(r: JsonRpcResponse) -> CallOutcome {
    match r.error {
        Some(e) => CallOutcome::RpcFailure { code: e.code, message: e.message },
        None => match r.result {
            Some(p) => CallOutcome::Success(p),
            None => CallOutcome::Success(JsonValue::Null),
        },
    }
}

/// The transition one decoded message makes: requests and notifications are
/// queued in arrival order; a response either resolves the outstanding call
/// whose identifier it carries, or is an orphan and changes nothing.
pub open spec fn spec_ingest(s: ConnState, m: JsonRpcMessage) -> (ConnState, Ingest) {
    match m {
        JsonRpcMessage::Request(q) => (
            ConnState { queued: s.queued.push(IncomingMessage::Request(q)), ..s },
            Ingest::Queued,
        ),
        JsonRpcMessage::Notification(n) => (
            ConnState { queued: s.queued.push(IncomingMessage::Notification(n)), ..s },
            Ingest::Queued,
        ),
        JsonRpcMessage::Response(r) => {
            if s.awaiting matches Some(k) && r.id == JsonRpcId::Number(k) {
                (ConnState { awaiting: None, ..s }, Ingest::Resolved(spec_outcome_of(r)))
            } else {
                (s, Ingest::Orphan(r.id))
            }
        }
    }
}

/// A bidirectional JSON-RPC connection core, transport left to the caller.
pub struct McplConnection {
    next_id: i64,
    pending: Option<i64>,
    buffer: Vec<IncomingMessage>,
    ids: Ghost<Seq<i64>>,
}

impl View for McplConnection {
    type V = ConnState;

    closed spec fn view(&self) -> ConnState {
        ConnState {
            awaiting: self.pending,
            queued: self.buffer@,
            allocated: self.ids@,
            next: self.next_id,
        }
    }
}

impl McplConnection {
    /// A fresh connection: no call outstanding, nothing queued, identifiers
    /// to be handed out from 1.
    pub fn new() -> (c: McplConnection)
        ensures
            c@.wf(),
            c@.awaiting is None,
            c@.queued == Seq::<IncomingMessage>::empty(),
            c@.allocated == Seq::<i64>::empty(),
            c@.next == 1,
    {
        McplConnection { next_id: 1, pending: None, buffer: Vec::new(), ids: Ghost(Seq::empty()) }
    }

    /// Whether no local call is outstanding.
    pub fn is_idle(&self) -> (r: bool)
        ensures
            r == (self@.awaiting is None),
    {
        self.pending.is_none()
    }

    /// Whether another identifier can still be allocated.
    pub fn can_allocate(&self) -> (r: bool)
        ensures
            r == (self@.next < i64::MAX),
    {
        self.next_id < i64::MAX
    }

    /// Allocate the next identifier, move to awaiting it, and build the
    /// request to write. The caller frames and sends the request, then feeds
    /// inbound lines until one resolves the call.
    pub fn start_request(&mut self, method: String, params: Option<JsonValue>) -> (r: (
        i64,
        JsonRpcRequest,
    ))
        requires
            old(self)@.wf(),
            old(self)@.awaiting is None,
            old(self)@.next < i64::MAX,
        ensures
            final(self)@.wf(),
            r.0 == old(self)@.next,
            final(self)@.next == old(self)@.next + 1,
            final(self)@.allocated == old(self)@.allocated.push(r.0),
            final(self)@.awaiting == Some(r.0),
            final(self)@.queued == old(self)@.queued,
            r.1.id == JsonRpcId::Number(r.0),
            r.1.method == method,
            r.1.params == params,
            r.1.jsonrpc@ == protocol_tag(),
    {
        let id = self.next_id;
        self.next_id = self.next_id + 1;
        self.pending = Some(id);
        proof {
            self.ids@ = self.ids@.push(id);
        }
        let req = JsonRpcRequest::new(JsonRpcId::Number(id), method, params);
        (id, req)
    }

    /// Hand out the oldest queued peer message, if any. Arrival order is
    /// kept: what was queued first leaves first.
    pub fn take_message(&mut self) -> (r: Option<IncomingMessage>)
        ensures
            old(self)@.queued.len() == 0 ==> r is None && final(self)@ == old(self)@,
            old(self)@.queued.len() > 0 ==> r == Some(old(self)@.queued[0]) && final(self)@
                == (ConnState { queued: old(self)@.queued.drop_first(), ..old(self)@ }),
            old(self)@.wf() ==> final(self)@.wf(),
    {
        if self.buffer.len() == 0 {
            None
        } else {
            let m = self.buffer.remove(0);
            proof {
                assert(self.buffer@ =~= old(self).buffer@.drop_first());
            }
            Some(m)
        }
    }

    /// Stop waiting for the outstanding call, if any. A caller that gave up
    /// on a call (a deadline, a fatal error that unwound it) abandons it;
    /// the response, if it ever arrives, then matches nothing and is
    /// discarded as an orphan.
    pub fn abandon_call(&mut self)
        ensures
            final(self)@ == (ConnState { awaiting: None, ..old(self)@ }),
            old(self)@.wf() ==> final(self)@.wf(),
    {
        self.pending = None;
    }

    /// Feed one decoded value into the connection. `raw` is the line the
    /// value came from, kept for the diagnostic if the value is malformed.
    pub fn ingest_value(&mut self, v: JsonValue, raw: String) -> (r: Result<
        Ingest,
        ConnectionError,
    >)
        ensures
            match spec_decode(v) {
                Ok(m) => {
                    &&& r == Ok::<Ingest, ConnectionError>(spec_ingest(old(self)@, m).1)
                    &&& final(self)@ == spec_ingest(old(self)@, m).0
                },
                Err(kind) => {
                    &&& r == Err::<Ingest, ConnectionError>(ConnectionError::Malformed {
                        kind,
                        raw,
                    })
                    &&& final(self)@ == old(self)@
                },
            },
            old(self)@.wf() ==> final(self)@.wf(),
    {
        match decode_value(v) {
            Err(kind) => Err(ConnectionError::Malformed { kind, raw }),
            Ok(JsonRpcMessage::Request(q)) => {
                self.buffer.push(IncomingMessage::Request(q));
                Ok(Ingest::Queued)
            }
            Ok(JsonRpcMessage::Notification(n)) => {
                self.buffer.push(IncomingMessage::Notification(n));
                Ok(Ingest::Queued)
            }
            Ok(JsonRpcMessage::Response(resp)) => {
                let matched = match (self.pending, &resp.id) {
                    (Some(k), JsonRpcId::Number(n)) => k == *n,
                    _ => false,
                };
                if matched {
                    self.pending = None;
                    match resp.error {
                        Some(e) => Ok(Ingest::Resolved(CallOutcome::RpcFailure {
                            code: e.code,
                            message: e.message,
                        })),
                        None => match resp.result {
                            Some(p) => Ok(Ingest::Resolved(CallOutcome::Success(p))),
                            None => Ok(Ingest::Resolved(CallOutcome::Success(JsonValue::Null))),
                        },
                    }
                } else {
                    Ok(Ingest::Orphan(resp.id))
                }
            }
        }
    }

    /// Feed one raw line. A whitespace-only line is skipped; anything else
    /// is parsed, decoded and dispatched. Whatever parsing finds, the
    /// identifier counter never moves, a queued line only appends, and a
    /// resolution only clears the awaited identifier.
    pub fn ingest_line(&mut self, line: &str) -> (r: Result<Ingest, ConnectionError>)
        ensures
            final(self)@.allocated == old(self)@.allocated,
            final(self)@.next == old(self)@.next,
            (r == Ok::<Ingest, ConnectionError>(Ingest::Blank)) <==> blank_bytes(
                line.spec_bytes(),
            ),
            r == Ok::<Ingest, ConnectionError>(Ingest::Blank) ==> final(self)@ == old(self)@,
            !blank_bytes(line.spec_bytes()) ==> match spec_parsed(line@) {
                None => final(self)@ == old(self)@ && (r matches Err(e) && e matches
                    ConnectionError::Malformed { kind, raw } && kind == MalformedKind::Parse
                    && raw@ == line@),
                Some(d) => {
                    &&& !depth_le(d, JSON_DEPTH_LIMIT as int) ==> final(self)@ == old(self)@ && (
                    r matches Err(e) && e matches ConnectionError::Malformed { kind, raw } && kind
                        == MalformedKind::Parse && raw@ == line@)
                    &&& depth_le(d, JSON_DEPTH_LIMIT as int) ==> exists|j: JsonValue|
                        #[trigger] doc_of(j) == d && match spec_decode(j) {
                            Ok(m) => r == Ok::<Ingest, ConnectionError>(
                                spec_ingest(old(self)@, m).1,
                            ) && final(self)@ == spec_ingest(old(self)@, m).0,
                            Err(kind) => final(self)@ == old(self)@ && (r matches Err(e) && e
                                matches ConnectionError::Malformed { kind: k, raw } && k == kind
                                && raw@ == line@),
                        }
                },
            },
            old(self)@.wf() ==> final(self)@.wf(),
    {
        if is_blank_line(line) {
            return Ok(Ingest::Blank);
        }
        match parse_json_text(line) {
            None => Err(ConnectionError::Malformed {
                kind: MalformedKind::Parse,
                raw: line.to_owned(),
            }),
            Some(v) => {
                let r = self.ingest_value(v, line.to_owned());
                proof {
                    if let Some(d) = spec_parsed(line@) {
                        assert(doc_of(v) == d);
                        assert(match spec_decode(v) {
                            Ok(m) => r == Ok::<Ingest, ConnectionError>(
                                spec_ingest(old(self)@, m).1,
                            ) && final(self)@ == spec_ingest(old(self)@, m).0,
                            Err(kind) => final(self)@ == old(self)@ && (r matches Err(e) && e
                                matches ConnectionError::Malformed { kind: k, raw } && k == kind
                                && raw@ == line@),
                        });
                    }
                }
                r
            }
        }
    }

    /// Write one message as its wire frame: compact JSON and a closing
    /// newline, with no newline anywhere else. Returns nothing only for a
    /// value the printer cannot take (number text that is not a number, or
    /// nesting past the depth bound).
    pub fn encode_frame(m: JsonRpcMessage) -> (r: Option<String>)
        ensures
            frameable(m) ==> (r matches Some(line) && exists|v: JsonValue|
                #[trigger] encodes_message(m, v) && line@ == json_text_of(doc_of(v)) + "\n"@),
            r matches Some(line) ==> {
                &&& line@.len() > 0
                &&& line@[line@.len() - 1] == '\n'
                &&& forall|i: int| 0 <= i < line@.len() - 1 ==> line@[i] != '\n'
            },
    {
        let v = encode_message(m);
        match render_json(&v) {
            Some(s) => {
                let mut line = s;
                line.append("\n");
                proof {
                    reveal_strlit("\n");
                    if frameable(m) {
                        assert(encodes_message(m, v) && line@ == json_text_of(doc_of(v))
                            + "\n"@);
                    }
                }
                Some(line)
            }
            None => None,
        }
    }
}

/// Identifier monotonicity: on any well-formed connection the allocated
/// identifiers start at 1 and strictly increase, never reused.
pub proof fn lemma_identifier_monotonicity(s: ConnState)
    requires
        s.wf(),
    ensures
        s.allocated.len() > 0 ==> s.allocated[0] == 1,
        forall|i: int, j: int|
            0 <= i < j < s.allocated.len() ==> s.allocated[i] < s.allocated[j],
{
}

/// Response correctness: a response carrying the awaited identifier resolves
/// the call — with its result payload, or as an RPC failure with the peer's
/// code and message — and clears the slot without touching the queue; a
/// response with any other identifier is discarded and changes nothing.
pub proof fn lemma_response_correctness(s: ConnState, k: i64, resp: JsonRpcResponse)
    requires
        s.awaiting == Some(k),
    ensures
        resp.id == JsonRpcId::Number(k) ==> match resp.error {
            Some(e) => spec_ingest(s, JsonRpcMessage::Response(resp)) == (
                ConnState { awaiting: None, ..s },
                Ingest::Resolved(CallOutcome::RpcFailure { code: e.code, message: e.message }),
            ),
            None => match resp.result {
                Some(p) => spec_ingest(s, JsonRpcMessage::Response(resp)) == (
                    ConnState { awaiting: None, ..s },
                    Ingest::Resolved(CallOutcome::Success(p)),
                ),
                None => spec_ingest(s, JsonRpcMessage::Response(resp)) == (
                    ConnState { awaiting: None, ..s },
                    Ingest::Resolved(CallOutcome::Success(JsonValue::Null)),
                ),
            },
        },
        resp.id != JsonRpcId::Number(k) ==> spec_ingest(s, JsonRpcMessage::Response(resp)) == (
            s,
            Ingest::Orphan(resp.id),
        ),
{
}

/// What a peer-initiated message is handed out as. Only requests and
/// notifications are queued, so the response case never matters to callers.
pub open spec fn spec_incoming(m: JsonRpcMessage) -> IncomingMessage {
    match m {
        JsonRpcMessage::Request(q) => IncomingMessage::Request(q),
        JsonRpcMessage::Notification(n) => IncomingMessage::Notification(n),
        JsonRpcMessage::Response(_) => arbitrary(),
    }
}

/// The state after ingesting a run of messages, in order.
pub open spec fn spec_ingest_all(s: ConnState, ms: Seq<JsonRpcMessage>) -> ConnState
    decreases ms.len(),
{
    if ms.len() == 0 {
        s
    } else {
        spec_ingest_all(spec_ingest(s, ms[0]).0, ms.drop_first())
    }
}

/// Buffering order, in general: while a call is outstanding, any run of
/// peer requests and notifications followed by the matching response leaves
/// the call resolved and every one of them queued behind whatever was
/// there, in arrival order, none dropped.
pub proof fn lemma_buffering_order_general(
    s: ConnState,
    k: i64,
    ms: Seq<JsonRpcMessage>,
    resp: JsonRpcResponse,
)
    requires
        s.awaiting == Some(k),
        resp.id == JsonRpcId::Number(k),
        forall|i: int| 0 <= i < ms.len() ==> !((#[trigger] ms[i]) is Response),
    ensures
        ({
            let s1 = spec_ingest_all(s, ms);
            let (s2, r2) = spec_ingest(s1, JsonRpcMessage::Response(resp));
            &&& s1.awaiting == Some(k)
            &&& s1.allocated == s.allocated
            &&& s1.queued == s.queued + Seq::new(ms.len(), |i: int| spec_incoming(ms[i]))
            &&& r2 == Ingest::Resolved(spec_outcome_of(resp))
            &&& s2.awaiting is None
            &&& s2.queued == s1.queued
        }),
    decreases ms.len(),
{
    if ms.len() == 0 {
        assert(spec_ingest_all(s, ms) == s);
        assert(s.queued + Seq::new(0, |i: int| spec_incoming(ms[i])) =~= s.queued);
    } else {
        let (sh, _) = spec_ingest(s, ms[0]);
        lemma_buffering_order_general(sh, k, ms.drop_first(), resp);
        let s1 = spec_ingest_all(s, ms);
        assert(s1 == spec_ingest_all(sh, ms.drop_first()));
        assert(sh.queued == s.queued.push(spec_incoming(ms[0])));
        assert(s1.queued =~= s.queued + Seq::new(ms.len(), |i: int| spec_incoming(ms[i]))) by {
            assert(s1.queued == sh.queued + Seq::new(
                ms.drop_first().len(),
                |i: int| spec_incoming(ms.drop_first()[i]),
            ));
        }
    }
}

/// Buffering order: while a call is outstanding, a notification, then a
/// request, then the matching response leave the call resolved and the two
/// peer messages queued behind whatever was there, in arrival order.
pub proof fn lemma_buffering_order(
    s: ConnState,
    k: i64,
    a: JsonRpcNotification,
    b: JsonRpcRequest,
    resp: JsonRpcResponse,
)
    requires
        s.awaiting == Some(k),
        resp.id == JsonRpcId::Number(k),
    ensures
        ({
            let (s1, r1) = spec_ingest(s, JsonRpcMessage::Notification(a));
            let (s2, r2) = spec_ingest(s1, JsonRpcMessage::Request(b));
            let (s3, r3) = spec_ingest(s2, JsonRpcMessage::Response(resp));
            &&& r1 == Ingest::Queued
            &&& r2 == Ingest::Queued
            &&& r3 == Ingest::Resolved(spec_outcome_of(resp))
            &&& s3.awaiting is None
            &&& s3.allocated == s.allocated
            &&& s3.queued == s.queued + seq![
                IncomingMessage::Notification(a),
                IncomingMessage::Request(b),
            ]
            &&& s.queued.len() == 0 ==> s3.queued[0] == IncomingMessage::Notification(a)
                && s3.queued[1] == IncomingMessage::Request(b)
        }),
{
    let (s1, r1) = spec_ingest(s, JsonRpcMessage::Notification(a));
    let (s2, r2) = spec_ingest(s1, JsonRpcMessage::Request(b));
    assert(s2.queued =~= s.queued + seq![
        IncomingMessage::Notification(a),
        IncomingMessage::Request(b),
    ]);
}

} // verus!
