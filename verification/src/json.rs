//! A plain-data model of JSON documents.
//!
//! The connection core never interprets the payloads it carries, but it does
//! inspect the top-level structure of every inbound line (which fields an
//! object has, and of what shape). `JsonValue` holds exactly that structure
//! as ordinary data, so the classification and decoding rules can be stated
//! and proved over it. Numbers that fit in `i64` are held exactly; any other
//! JSON number is carried as its literal text.

use vstd::prelude::*;

verus! {

broadcast use vstd::std_specs::vec::group_vec_axioms;

/// One JSON value. Object fields are kept in their textual order; a lookup
/// finds the first field with the given key.
#[derive(Debug, PartialEq, Eq)]
pub enum JsonValue {
    Null,
    Bool(bool),
    Int(i64),
    /// A JSON number that does not fit in `i64`, as its literal text.
    Num(String),
    Str(String),
    Arr(Vec<JsonValue>),
    Obj(Vec<(String, JsonValue)>),
}

/// The document a `JsonValue` spells, with text as character sequences. This
/// is the currency of the crate's contracts at the text boundary: what the
/// parser yields and what the printer takes are stated as documents, so that
/// two values spelling the same document are interchangeable there.
#[verifier::ext_equal]
pub ghost enum JsonDoc {
    Null,
    Bool(bool),
    Int(i64),
    Num(Seq<char>),
    Str(Seq<char>),
    Arr(Seq<JsonDoc>),
    Obj(Seq<(Seq<char>, JsonDoc)>),
}

/// The document a value spells.
pub open spec fn doc_of(j: JsonValue) -> JsonDoc
    decreases j,
{
    match j {
        JsonValue::Null => JsonDoc::Null,
        JsonValue::Bool(b) => JsonDoc::Bool(b),
        JsonValue::Int(i) => JsonDoc::Int(i),
        JsonValue::Num(t) => JsonDoc::Num(t@),
        JsonValue::Str(s) => JsonDoc::Str(s@),
        JsonValue::Arr(items) => JsonDoc::Arr(
            Seq::new(
                items@.len(),
                |i: int|
                    if 0 <= i < items@.len() {
                        doc_of(items@[i])
                    } else {
                        JsonDoc::Null
                    },
            ),
        ),
        JsonValue::Obj(fields) => JsonDoc::Obj(
            Seq::new(
                fields@.len(),
                |i: int|
                    if 0 <= i < fields@.len() {
                        (fields@[i].0@, doc_of(fields@[i].1))
                    } else {
                        (Seq::empty(), JsonDoc::Null)
                    },
            ),
        ),
    }
}

/// Whether a document nests no deeper than `n` levels.
pub open spec fn depth_le(d: JsonDoc, n: int) -> bool
    decreases d, 1int,
{
    match d {
        JsonDoc::Arr(items) => n >= 1 && depth_le_seq(items, n - 1, 0),
        JsonDoc::Obj(fields) => n >= 1 && depth_le_fields(fields, n - 1, 0),
        _ => n >= 1,
    }
}

/// Whether the elements from position `k` on all stay within depth `n`.
pub open spec fn depth_le_seq(items: Seq<JsonDoc>, n: int, k: int) -> bool
    decreases items, items.len() - k,
{
    k < 0 || k >= items.len() || (depth_le(items[k], n) && depth_le_seq(items, n, k + 1))
}

/// Whether the field values from position `k` on all stay within depth `n`.
pub open spec fn depth_le_fields(fields: Seq<(Seq<char>, JsonDoc)>, n: int, k: int) -> bool
    decreases fields, fields.len() - k,
{
    k < 0 || k >= fields.len() || (depth_le(fields[k].1, n) && depth_le_fields(fields, n, k + 1))
}

/// No field from position `k` on carries `key`.
pub open spec fn key_not_in(fields: Seq<(Seq<char>, JsonDoc)>, key: Seq<char>, k: int) -> bool
    decreases fields.len() - k,
{
    k < 0 || k >= fields.len() || (fields[k].0 != key && key_not_in(fields, key, k + 1))
}

/// The field keys from position `k` on are pairwise distinct.
pub open spec fn keys_distinct(fields: Seq<(Seq<char>, JsonDoc)>, k: int) -> bool
    decreases fields.len() - k,
{
    k < 0 || k >= fields.len() || (key_not_in(fields, fields[k].0, k + 1) && keys_distinct(
        fields,
        k + 1,
    ))
}

/// An element of a depth-bounded run is depth-bounded.
pub proof fn lemma_depth_le_seq_elem(items: Seq<JsonDoc>, n: int, k: int, i: int)
    requires
        depth_le_seq(items, n, k),
        0 <= k <= i < items.len(),
    ensures
        depth_le(items[i], n),
    decreases i - k,
{
    if i > k {
        lemma_depth_le_seq_elem(items, n, k + 1, i);
    }
}

/// A run of depth-bounded elements is depth-bounded.
pub proof fn lemma_depth_le_seq_all(items: Seq<JsonDoc>, n: int, k: int)
    requires
        0 <= k,
        forall|i: int| k <= i < items.len() ==> depth_le(#[trigger] items[i], n),
    ensures
        depth_le_seq(items, n, k),
    decreases items.len() - k,
{
    if k < items.len() {
        lemma_depth_le_seq_all(items, n, k + 1);
    }
}

/// A field value of a depth-bounded run is depth-bounded.
pub proof fn lemma_depth_le_fields_elem(fields: Seq<(Seq<char>, JsonDoc)>, n: int, k: int, i: int)
    requires
        depth_le_fields(fields, n, k),
        0 <= k <= i < fields.len(),
    ensures
        depth_le(fields[i].1, n),
    decreases i - k,
{
    if i > k {
        lemma_depth_le_fields_elem(fields, n, k + 1, i);
    }
}

/// A run of depth-bounded field values is depth-bounded.
pub proof fn lemma_depth_le_fields_all(fields: Seq<(Seq<char>, JsonDoc)>, n: int, k: int)
    requires
        0 <= k,
        forall|i: int| k <= i < fields.len() ==> depth_le((#[trigger] fields[i]).1, n),
    ensures
        depth_le_fields(fields, n, k),
    decreases fields.len() - k,
{
    if k < fields.len() {
        lemma_depth_le_fields_all(fields, n, k + 1);
    }
}

/// A key known absent from a run differs from every key in it.
pub proof fn lemma_key_not_in_elem(fields: Seq<(Seq<char>, JsonDoc)>, key: Seq<char>, k: int, i: int)
    requires
        key_not_in(fields, key, k),
        0 <= k <= i < fields.len(),
    ensures
        fields[i].0 != key,
    decreases i - k,
{
    if i > k {
        lemma_key_not_in_elem(fields, key, k + 1, i);
    }
}

/// Distinct keys, pointwise: two positions in a distinct run carry
/// different keys.
pub proof fn lemma_keys_distinct_pair(fields: Seq<(Seq<char>, JsonDoc)>, k: int, i: int, j: int)
    requires
        keys_distinct(fields, k),
        0 <= k <= i < j < fields.len(),
    ensures
        fields[i].0 != fields[j].0,
    decreases i - k,
{
    if i > k {
        lemma_keys_distinct_pair(fields, k + 1, i, j);
    } else {
        lemma_key_not_in_elem(fields, fields[i].0, i + 1, j);
    }
}

/// A run whose keys are pairwise distinct is a distinct run.
pub proof fn lemma_keys_distinct_all(fields: Seq<(Seq<char>, JsonDoc)>, k: int)
    requires
        0 <= k,
        forall|i: int, j: int|
            k <= i < j < fields.len() ==> (#[trigger] fields[i]).0 != (#[trigger] fields[j]).0,
    ensures
        keys_distinct(fields, k),
    decreases fields.len() - k,
{
    if k < fields.len() {
        lemma_key_not_in_all(fields, fields[k].0, k + 1, k);
        lemma_keys_distinct_all(fields, k + 1);
    }
}

/// A key differing from every key in a run is absent from it.
proof fn lemma_key_not_in_all(fields: Seq<(Seq<char>, JsonDoc)>, key: Seq<char>, k: int, from: int)
    requires
        0 <= k,
        0 <= from < fields.len(),
        key == fields[from].0,
        forall|i: int, j: int|
            from <= i < j < fields.len() ==> (#[trigger] fields[i]).0 != (#[trigger] fields[j]).0,
        from < k,
    ensures
        key_not_in(fields, key, k),
    decreases fields.len() - k,
{
    if k < fields.len() {
        lemma_key_not_in_all(fields, key, k + 1, from);
    }
}

/// The first field of `fields` whose key reads as `key`, if any.
pub open spec fn lookup_field(fields: Seq<(String, JsonValue)>, key: Seq<char>) -> Option<JsonValue>
    decreases fields.len(),
{
    if fields.len() == 0 {
        None
    } else if fields[0].0@ == key {
        Some(fields[0].1)
    } else {
        lookup_field(fields.skip(1), key)
    }
}

/// Field lookup on a value: `None` unless the value is an object with the key.
pub open spec fn obj_lookup(v: JsonValue, key: Seq<char>) -> Option<JsonValue> {
    match v {
        JsonValue::Obj(fields) => lookup_field(fields@, key),
        _ => None,
    }
}

/// Whether `v` is an object carrying a field named `key`.
pub open spec fn has_key(v: JsonValue, key: Seq<char>) -> bool {
    obj_lookup(v, key) is Some
}

/// One unfolding of `lookup_field`: the head decides, or the tail does.
pub proof fn lemma_lookup_step(fields: Seq<(String, JsonValue)>, key: Seq<char>)
    requires
        fields.len() > 0,
    ensures
        lookup_field(fields, key) == (if fields[0].0@ == key {
            Some(fields[0].1)
        } else {
            lookup_field(fields.skip(1), key)
        }),
{
}

/// A lookup over fields none of which carries the key finds nothing.
pub proof fn lemma_lookup_absent(fields: Seq<(String, JsonValue)>, key: Seq<char>)
    requires
        forall|i: int| 0 <= i < fields.len() ==> fields[i].0@ != key,
    ensures
        lookup_field(fields, key) is None,
    decreases fields.len(),
{
    if fields.len() > 0 {
        lemma_lookup_step(fields, key);
        lemma_lookup_absent(fields.skip(1), key);
    }
}

/// A lookup finds the field at `i` when no earlier field carries the key.
pub proof fn lemma_lookup_found(fields: Seq<(String, JsonValue)>, key: Seq<char>, i: int)
    requires
        0 <= i < fields.len(),
        fields[i].0@ == key,
        forall|j: int| 0 <= j < i ==> fields[j].0@ != key,
    ensures
        lookup_field(fields, key) == Some(fields[i].1),
    decreases i,
{
    lemma_lookup_step(fields, key);
    if i > 0 {
        lemma_lookup_found(fields.skip(1), key, i - 1);
    }
}

/// A lookup that skipped a matchless prefix finds the same field.
proof fn lemma_lookup_skip_one(fields: Seq<(String, JsonValue)>, key: Seq<char>, i: int)
    requires
        0 <= i < fields.len(),
        fields[i].0@ != key,
    ensures
        lookup_field(fields.skip(i), key) == lookup_field(fields.skip(i + 1), key),
{
    assert(fields.skip(i).len() > 0);
    assert(fields.skip(i)[0] == fields[i]);
    assert(fields.skip(i).skip(1) =~= fields.skip(i + 1));
}

/// Find the first field named `key`, walking the fields in order.
pub fn get_field<'a>(fields: &'a Vec<(String, JsonValue)>, key: &str) -> (r: Option<&'a JsonValue>)
    ensures
        match r {
            Some(v) => lookup_field(fields@, key@) == Some(*v),
            None => lookup_field(fields@, key@) is None,
        },
{
    let k = String::from_str(key);
    let mut i: usize = 0;
    assert(fields@.skip(0) =~= fields@);
    while i < fields.len()
        invariant
            0 <= i <= fields.len(),
            k@ == key@,
            lookup_field(fields@, key@) == lookup_field(fields@.skip(i as int), key@),
        decreases fields.len() - i,
    {
        if fields[i].0 == k {
            assert(fields@.skip(i as int)[0] == fields@[i as int]);
            return Some(&fields[i].1);
        }
        proof {
            lemma_lookup_skip_one(fields@, key@, i as int);
        }
        i = i + 1;
    }
    assert(fields@.skip(i as int) =~= Seq::<(String, JsonValue)>::empty());
    None
}

} // verus!
