//! The text side of the framer: JSON text to and from `JsonValue`.
//!
//! Parsing and printing of JSON text is done by serde_json. Each call into it
//! sits behind one small trusted wrapper; everything that walks or builds a
//! document — the conversion between serde_json's tree and the crate's own
//! `JsonValue` — is ordinary verified code. The contracts speak of three
//! named quantities: the document an opaque parsed value spells
//! (`value_doc`), the document the parser yields on given text
//! (`spec_parsed`), and the text the printer emits for a given document
//! (`json_text_of`). A depth bound keeps the conversions total; a document
//! nested deeper than the bound is rejected rather than recursed into.

use vstd::prelude::*;
use vstd::string::*;

use crate::json::{
    JsonValue, JsonDoc, doc_of, depth_le, depth_le_seq, depth_le_fields, keys_distinct,
    lemma_depth_le_seq_elem, lemma_depth_le_seq_all, lemma_depth_le_fields_elem,
    lemma_depth_le_fields_all, lemma_keys_distinct_pair,
};

verus! {

/// How deep a document the converters will walk. This matches the recursion
/// limit of serde_json's own parser, so no document a conforming peer can
/// send exceeds it, and nothing framed here exceeds what such a peer reads.
pub const JSON_DEPTH_LIMIT: u32 = 128;

#[verifier::external_type_specification]
#[verifier::external_body]
pub struct ExValue(serde_json::Value);

/// The document an opaque serde_json value spells: null, boolean, `i64`
/// integer or other number by its literal text, string, array, or object
/// with its fields in order.
pub uninterp spec fn value_doc(v: serde_json::Value) -> JsonDoc;

/// The document serde_json's parser yields on the given text, if any.
pub uninterp spec fn spec_parsed(s: Seq<char>) -> Option<JsonDoc>;

/// The compact text serde_json's printer emits for the given document.
pub uninterp spec fn json_text_of(d: JsonDoc) -> Seq<char>;

/// A document the printer maps back onto itself: its non-integer numbers
/// carry canonical literal text (what parsing the text yields is that very
/// number), and its objects have no repeated key.
pub open spec fn printable(d: JsonDoc) -> bool
    decreases d, 1int,
{
    match d {
        JsonDoc::Num(t) => spec_parsed(t) == Some(JsonDoc::Num(t)),
        JsonDoc::Arr(items) => printable_seq(items, 0),
        JsonDoc::Obj(fields) => printable_fields(fields, 0) && keys_distinct(fields, 0),
        _ => true,
    }
}

/// Whether the elements from position `k` on are all printable.
pub open spec fn printable_seq(items: Seq<JsonDoc>, k: int) -> bool
    decreases items, items.len() - k,
{
    k < 0 || k >= items.len() || (printable(items[k]) && printable_seq(items, k + 1))
}

/// Whether the field values from position `k` on are all printable.
pub open spec fn printable_fields(fields: Seq<(Seq<char>, JsonDoc)>, k: int) -> bool
    decreases fields, fields.len() - k,
{
    k < 0 || k >= fields.len() || (printable(fields[k].1) && printable_fields(fields, k + 1))
}

/// An element of a printable run is printable.
pub proof fn lemma_printable_seq_elem(items: Seq<JsonDoc>, k: int, i: int)
    requires
        printable_seq(items, k),
        0 <= k <= i < items.len(),
    ensures
        printable(items[i]),
    decreases i - k,
{
    if i > k {
        lemma_printable_seq_elem(items, k + 1, i);
    }
}

/// A field value of a printable run is printable.
pub proof fn lemma_printable_fields_elem(fields: Seq<(Seq<char>, JsonDoc)>, k: int, i: int)
    requires
        printable_fields(fields, k),
        0 <= k <= i < fields.len(),
    ensures
        printable(fields[i].1),
    decreases i - k,
{
    if i > k {
        lemma_printable_fields_elem(fields, k + 1, i);
    }
}

/// A run of printable field values is printable.
pub proof fn lemma_printable_fields_all(fields: Seq<(Seq<char>, JsonDoc)>, k: int)
    requires
        0 <= k,
        forall|i: int| k <= i < fields.len() ==> printable((#[trigger] fields[i]).1),
    ensures
        printable_fields(fields, k),
    decreases fields.len() - k,
{
    if k < fields.len() {
        lemma_printable_fields_all(fields, k + 1);
    }
}

/// Relies on serde_json::from_str: parses one JSON document from the text,
/// tolerating surrounding whitespace; what it yields depends on the text
/// alone.
#[verifier::external_body]
fn parse_value(s: &str) -> (r: Option<serde_json::Value>)
    ensures
        match r {
            Some(v) => spec_parsed(s@) == Some(value_doc(v)),
            None => spec_parsed(s@) is None,
        },
{
    serde_json::from_str(s).ok()
}

/// Relies on serde_json::Value::is_null.
#[verifier::external_body]
fn value_is_null(v: &serde_json::Value) -> (r: bool)
    ensures
        r == (value_doc(*v) is Null),
{
    v.is_null()
}

/// Relies on serde_json::Value::as_bool.
#[verifier::external_body]
fn value_as_bool(v: &serde_json::Value) -> (r: Option<bool>)
    ensures
        match value_doc(*v) {
            JsonDoc::Bool(b) => r == Some(b),
            _ => r is None,
        },
{
    v.as_bool()
}

/// Relies on serde_json::Value::as_i64: the number, if it is an integer that
/// fits `i64`.
#[verifier::external_body]
fn value_as_i64(v: &serde_json::Value) -> (r: Option<i64>)
    ensures
        match value_doc(*v) {
            JsonDoc::Int(i) => r == Some(i),
            _ => r is None,
        },
{
    v.as_i64()
}

/// Relies on Display for serde_json::Number: the number's literal text. Any
/// number has one; the crate asks only after `as_i64` has said no.
#[verifier::external_body]
fn value_number_text(v: &serde_json::Value) -> (r: Option<String>)
    ensures
        match value_doc(*v) {
            JsonDoc::Num(t) => r matches Some(s) && s@ == t,
            JsonDoc::Int(_) => r is Some,
            _ => r is None,
        },
{
    match v {
        serde_json::Value::Number(n) => Some(n.to_string()),
        _ => None,
    }
}

/// Relies on serde_json::Value::as_str; copies the borrowed text out.
#[verifier::external_body]
fn value_as_string(v: &serde_json::Value) -> (r: Option<String>)
    ensures
        match value_doc(*v) {
            JsonDoc::Str(t) => r matches Some(s) && s@ == t,
            _ => r is None,
        },
{
    v.as_str().map(|s| s.to_owned())
}

/// Relies on serde_json::Value::as_array; clones the elements out, each
/// spelling the matching element of the document.
#[verifier::external_body]
fn value_array_elems(v: &serde_json::Value) -> (r: Option<Vec<serde_json::Value>>)
    ensures
        match value_doc(*v) {
            JsonDoc::Arr(ds) => r matches Some(es) && es@.len() == ds.len() && (forall|i: int|
                0 <= i < ds.len() ==> value_doc(#[trigger] es@[i]) == ds[i]),
            _ => r is None,
        },
{
    v.as_array().cloned()
}

/// Relies on serde_json::Value::as_object and Map::iter; copies the entries
/// out in the order the map holds them, which is the document's field order.
#[verifier::external_body]
fn value_object_entries(v: &serde_json::Value) -> (r: Option<Vec<(String, serde_json::Value)>>)
    ensures
        match value_doc(*v) {
            JsonDoc::Obj(fs) => r matches Some(es) && es@.len() == fs.len() && (forall|i: int|
                0 <= i < fs.len() ==> (#[trigger] es@[i]).0@ == fs[i].0 && value_doc(es@[i].1)
                    == fs[i].1),
            _ => r is None,
        },
{
    v.as_object().map(|m| m.iter().map(|(k, x)| (k.clone(), x.clone())).collect())
}

/// Relies on serde_json::Value::Null.
#[verifier::external_body]
fn value_null() -> (r: serde_json::Value)
    ensures
        value_doc(r) == JsonDoc::Null,
{
    serde_json::Value::Null
}

/// Relies on serde_json::Value::Bool.
#[verifier::external_body]
fn value_of_bool(b: bool) -> (r: serde_json::Value)
    ensures
        value_doc(r) == JsonDoc::Bool(b),
{
    serde_json::Value::Bool(b)
}

/// Relies on serde_json::Number::from for i64.
#[verifier::external_body]
fn value_of_i64(i: i64) -> (r: serde_json::Value)
    ensures
        value_doc(r) == JsonDoc::Int(i),
{
    serde_json::Value::Number(serde_json::Number::from(i))
}

/// Relies on serde_json::Value::String.
#[verifier::external_body]
fn value_of_string(s: String) -> (r: serde_json::Value)
    ensures
        value_doc(r) == JsonDoc::Str(s@),
{
    serde_json::Value::String(s)
}

/// Relies on serde_json::Value::Array.
#[verifier::external_body]
fn value_of_array(items: Vec<serde_json::Value>) -> (r: serde_json::Value)
    ensures
        value_doc(r) == JsonDoc::Arr(
            Seq::new(items@.len(), |i: int| value_doc(items@[i])),
        ),
{
    serde_json::Value::Array(items)
}

/// Relies on Map's FromIterator: builds the object from the entries. The map
/// keeps insertion order; when the keys are pairwise distinct every entry is
/// kept, in order.
#[verifier::external_body]
fn value_of_entries(entries: Vec<(String, serde_json::Value)>) -> (r: serde_json::Value)
    ensures
        value_doc(r) is Obj,
        (forall|i: int, j: int|
            0 <= i < j < entries@.len() ==> (#[trigger] entries@[i]).0@ != (
            #[trigger] entries@[j]).0@) ==> value_doc(r) == JsonDoc::Obj(
            Seq::new(entries@.len(), |i: int| (entries@[i].0@, value_doc(entries@[i].1))),
        ),
{
    serde_json::Value::Object(entries.into_iter().collect())
}

/// Relies on serde_json::to_string: one compact JSON text for the value's
/// document, and always some text — writing to a buffer cannot fail and a
/// value holds nothing the compact printer rejects. The printer escapes
/// every control character inside strings, so the text holds no newline;
/// that is what makes one message per line sound.
#[verifier::external_body]
fn value_to_text(v: &serde_json::Value) -> (r: Option<String>)
    ensures
        r is Some,
        r matches Some(s) ==> s@ == json_text_of(value_doc(*v)),
        r matches Some(s) ==> forall|i: int| 0 <= i < s@.len() ==> s@[i] != '\n',
{
    serde_json::to_string(v).ok()
}

/// Walk a parsed value into the crate's own model: the result spells the
/// value's document, and the walk succeeds on every document within the
/// depth bound.
fn value_to_json(v: &serde_json::Value, fuel: u32) -> (r: Option<JsonValue>)
    ensures
        r matches Some(j) ==> doc_of(j) == value_doc(*v) && depth_le(value_doc(*v), fuel as int),
        depth_le(value_doc(*v), fuel as int) ==> r is Some,
    decreases fuel,
{
    if fuel == 0 {
        return None;
    }
    if value_is_null(v) {
        return Some(JsonValue::Null);
    }
    if let Some(b) = value_as_bool(v) {
        return Some(JsonValue::Bool(b));
    }
    if let Some(i) = value_as_i64(v) {
        return Some(JsonValue::Int(i));
    }
    if let Some(t) = value_number_text(v) {
        return Some(JsonValue::Num(t));
    }
    if let Some(s) = value_as_string(v) {
        return Some(JsonValue::Str(s));
    }
    if let Some(items) = value_array_elems(v) {
        let ghost ds = value_doc(*v)->Arr_0;
        let mut out: Vec<JsonValue> = Vec::new();
        let mut i: usize = 0;
        while i < items.len()
            invariant
                1 <= fuel,
                value_doc(*v) == JsonDoc::Arr(ds),
                items@.len() == ds.len(),
                forall|k: int| 0 <= k < ds.len() ==> value_doc(#[trigger] items@[k]) == ds[k],
                out@.len() == i <= items@.len(),
                forall|k: int|
                    0 <= k < i ==> doc_of(#[trigger] out@[k]) == ds[k] && depth_le(
                        ds[k],
                        fuel - 1,
                    ),
            decreases items.len() - i,
        {
            match value_to_json(&items[i], fuel - 1) {
                Some(j) => out.push(j),
                None => {
                    proof {
                        assert(value_doc(items@[i as int]) == ds[i as int]);
                        if depth_le(value_doc(*v), fuel as int) {
                            lemma_depth_le_seq_elem(ds, fuel - 1, 0, i as int);
                        }
                    }
                    return None;
                },
            }
            i = i + 1;
        }
        let r = JsonValue::Arr(out);
        proof {
            let built = doc_of(r)->Arr_0;
            assert forall|t: int| 0 <= t < ds.len() implies depth_le(#[trigger] ds[t], fuel - 1)
                && doc_of(out@[t]) == ds[t] by {
                assert(doc_of(out@[t]) == ds[t] && depth_le(ds[t], fuel - 1));
            }
            lemma_depth_le_seq_all(ds, fuel - 1, 0);
            assert(built =~= ds);
        }
        return Some(r);
    }
    if let Some(entries) = value_object_entries(v) {
        let ghost fs = value_doc(*v)->Obj_0;
        let mut out: Vec<(String, JsonValue)> = Vec::new();
        let mut i: usize = 0;
        while i < entries.len()
            invariant
                1 <= fuel,
                value_doc(*v) == JsonDoc::Obj(fs),
                entries@.len() == fs.len(),
                forall|k: int|
                    0 <= k < fs.len() ==> (#[trigger] entries@[k]).0@ == fs[k].0 && value_doc(
                        entries@[k].1,
                    ) == fs[k].1,
                out@.len() == i <= entries@.len(),
                forall|k: int|
                    0 <= k < i ==> (#[trigger] out@[k]).0@ == fs[k].0 && doc_of(out@[k].1)
                        == fs[k].1 && depth_le(fs[k].1, fuel - 1),
            decreases entries.len() - i,
        {
            match value_to_json(&entries[i].1, fuel - 1) {
                Some(j) => out.push((entries[i].0.clone(), j)),
                None => {
                    proof {
                        assert(value_doc(entries@[i as int].1) == fs[i as int].1);
                        if depth_le(value_doc(*v), fuel as int) {
                            lemma_depth_le_fields_elem(fs, fuel - 1, 0, i as int);
                        }
                    }
                    return None;
                },
            }
            i = i + 1;
        }
        let r = JsonValue::Obj(out);
        proof {
            let built = doc_of(r)->Obj_0;
            assert forall|t: int| 0 <= t < fs.len() implies depth_le((#[trigger] fs[t]).1, fuel - 1) by {
                assert(doc_of(out@[t].1) == fs[t].1 && depth_le(fs[t].1, fuel - 1));
            }
            lemma_depth_le_fields_all(fs, fuel - 1, 0);
            assert(built =~= fs);
        }
        return Some(r);
    }
    proof {
        assert(!depth_le(value_doc(*v), fuel as int)) by {
            match value_doc(*v) {
                JsonDoc::Null => assert(false),
                JsonDoc::Bool(_) => assert(false),
                JsonDoc::Int(_) => assert(false),
                JsonDoc::Num(_) => assert(false),
                JsonDoc::Str(_) => assert(false),
                JsonDoc::Arr(_) => assert(false),
                JsonDoc::Obj(_) => assert(false),
            }
        }
    }
    None
}

/// Build a serde_json value spelling the given document, for every printable
/// document within the depth bound.
fn json_to_value(j: &JsonValue, fuel: u32) -> (r: Option<serde_json::Value>)
    ensures
        printable(doc_of(*j)) && depth_le(doc_of(*j), fuel as int) ==> (r matches Some(v)
            && value_doc(v) == doc_of(*j)),
    decreases fuel,
{
    if fuel == 0 {
        return None;
    }
    match j {
        JsonValue::Null => Some(value_null()),
        JsonValue::Bool(b) => Some(value_of_bool(*b)),
        JsonValue::Int(i) => Some(value_of_i64(*i)),
        JsonValue::Num(t) => match parse_value(t.as_str()) {
            Some(v) => {
                if value_number_text(&v).is_some() {
                    Some(v)
                } else {
                    None
                }
            }
            None => None,
        },
        JsonValue::Str(s) => Some(value_of_string(s.clone())),
        JsonValue::Arr(items) => {
            let ghost ds = doc_of(*j)->Arr_0;
            let mut out: Vec<serde_json::Value> = Vec::new();
            let mut i: usize = 0;
            while i < items.len()
                invariant
                    1 <= fuel,
                    doc_of(*j) == JsonDoc::Arr(ds),
                    items@.len() == ds.len(),
                    forall|k: int| 0 <= k < ds.len() ==> doc_of(#[trigger] items@[k]) == ds[k],
                    out@.len() == i <= items@.len(),
                    printable(doc_of(*j)) && depth_le(doc_of(*j), fuel as int) ==> forall|k: int|
                        0 <= k < i ==> value_doc(#[trigger] out@[k]) == ds[k],
                decreases items.len() - i,
            {
                proof {
                    if printable(doc_of(*j)) && depth_le(doc_of(*j), fuel as int) {
                        lemma_printable_seq_elem(ds, 0, i as int);
                        lemma_depth_le_seq_elem(ds, fuel - 1, 0, i as int);
                        assert(doc_of(items@[i as int]) == ds[i as int]);
                    }
                }
                match json_to_value(&items[i], fuel - 1) {
                    Some(v) => out.push(v),
                    None => {
                        return None;
                    },
                }
                i = i + 1;
            }
            let r = value_of_array(out);
            proof {
                if printable(doc_of(*j)) && depth_le(doc_of(*j), fuel as int) {
                    assert forall|t: int| 0 <= t < out@.len() implies value_doc(
                        #[trigger] out@[t],
                    ) == ds[t] by {}
                    assert(value_doc(r)->Arr_0 =~= ds);
                }
            }
            Some(r)
        }
        JsonValue::Obj(fields) => {
            let ghost fs = doc_of(*j)->Obj_0;
            let mut out: Vec<(String, serde_json::Value)> = Vec::new();
            let mut i: usize = 0;
            while i < fields.len()
                invariant
                    1 <= fuel,
                    doc_of(*j) == JsonDoc::Obj(fs),
                    fields@.len() == fs.len(),
                    forall|k: int|
                        0 <= k < fs.len() ==> (#[trigger] fields@[k]).0@ == fs[k].0 && doc_of(
                            fields@[k].1,
                        ) == fs[k].1,
                    out@.len() == i <= fields@.len(),
                    forall|k: int| 0 <= k < i ==> (#[trigger] out@[k]).0 == fields@[k].0,
                    printable(doc_of(*j)) && depth_le(doc_of(*j), fuel as int) ==> forall|k: int|
                        0 <= k < i ==> value_doc((#[trigger] out@[k]).1) == fs[k].1,
                decreases fields.len() - i,
            {
                proof {
                    if printable(doc_of(*j)) && depth_le(doc_of(*j), fuel as int) {
                        lemma_printable_fields_elem(fs, 0, i as int);
                        lemma_depth_le_fields_elem(fs, fuel - 1, 0, i as int);
                        assert(doc_of(fields@[i as int].1) == fs[i as int].1);
                    }
                }
                match json_to_value(&fields[i].1, fuel - 1) {
                    Some(v) => out.push((fields[i].0.clone(), v)),
                    None => {
                        return None;
                    },
                }
                i = i + 1;
            }
            let r = value_of_entries(out);
            proof {
                if printable(doc_of(*j)) && depth_le(doc_of(*j), fuel as int) {
                    assert forall|a: int, b: int|
                        0 <= a < b < out@.len() implies (#[trigger] out@[a]).0@ != (
                    #[trigger] out@[b]).0@ by {
                        lemma_keys_distinct_pair(fs, 0, a, b);
                        assert(out@[a].0 == fields@[a].0 && out@[b].0 == fields@[b].0);
                        assert(fields@[a].0@ == fs[a].0 && fields@[b].0@ == fs[b].0);
                    }
                    assert forall|t: int| 0 <= t < out@.len() implies value_doc(
                        (#[trigger] out@[t]).1,
                    ) == fs[t].1 && out@[t].0@ == fs[t].0 by {
                        assert(out@[t].0 == fields@[t].0);
                    }
                    assert(value_doc(r)->Obj_0 =~= fs);
                }
            }
            Some(r)
        }
    }
}

/// Parse one line of text into the crate's JSON model. The result spells
/// exactly what the parser yielded, and parsing is owed for every document
/// within the depth bound.
pub fn parse_json_text(s: &str) -> (r: Option<JsonValue>)
    ensures
        match spec_parsed(s@) {
            Some(d) => {
                &&& r matches Some(j) ==> doc_of(j) == d && depth_le(d, JSON_DEPTH_LIMIT as int)
                &&& depth_le(d, JSON_DEPTH_LIMIT as int) ==> r is Some
            },
            None => r is None,
        },
{
    match parse_value(s) {
        Some(v) => value_to_json(&v, JSON_DEPTH_LIMIT),
        None => None,
    }
}

/// Print one value as compact JSON text: the named rendering of its
/// document, owed whenever the document is printable and within the depth
/// bound. The text never holds a newline, so it is safe to frame as one
/// line.
pub fn render_json(j: &JsonValue) -> (r: Option<String>)
    ensures
        printable(doc_of(*j)) && depth_le(doc_of(*j), JSON_DEPTH_LIMIT as int) ==> (r matches Some(
            s,
        ) && s@ == json_text_of(doc_of(*j))),
        r matches Some(s) ==> forall|i: int| 0 <= i < s@.len() ==> s@[i] != '\n',
{
    match json_to_value(j, JSON_DEPTH_LIMIT) {
        Some(v) => value_to_text(&v),
        None => None,
    }
}

/// A byte that JSON counts as whitespace.
pub open spec fn is_ws_byte(b: u8) -> bool {
    b == 0x20 || b == 0x09 || b == 0x0a || b == 0x0d
}

/// Text whose bytes are all whitespace.
pub open spec fn blank_bytes(s: Seq<u8>) -> bool {
    forall|i: int| 0 <= i < s.len() ==> is_ws_byte(s[i])
}

/// Whether a line holds nothing but whitespace. Such keep-alive lines are
/// skipped rather than parsed.
pub fn is_blank_line(s: &str) -> (r: bool)
    ensures
        r == blank_bytes(s.spec_bytes()),
{
    let bytes = s.as_bytes();
    let mut i: usize = 0;
    while i < bytes.len()
        invariant
            0 <= i <= bytes@.len(),
            bytes@ == s.spec_bytes(),
            forall|j: int| 0 <= j < i ==> is_ws_byte(bytes@[j]),
        decreases bytes.len() - i,
    {
        let b = bytes[i];
        if !(b == 0x20 || b == 0x09 || b == 0x0a || b == 0x0d) {
            return false;
        }
        i = i + 1;
    }
    true
}

} // verus!
