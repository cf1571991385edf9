//! A plain JSON value tree and the bridge to JSON text.
//!
//! The persisted documents (device identity, resumption token) are JSON.
//! [`JsonValue`] holds what the logic reads of such a document as plain
//! values; rendering to text and parsing from text are the outside calls at
//! the bottom of this file, and everything the library decides about a
//! document is decided on [`JsonValue`] and verified.

use vstd::prelude::*;

verus! {

/// A JSON value as plain data.
///
/// A number that does not fit a signed 64-bit integer (including any
/// fractional number) is kept as [`JsonValue::BigNum`]: the documents this
/// library reads give such a value no meaning, and every reader rejects it.
#[derive(Debug)]
pub enum JsonValue {
    Null,
    Bool(bool),
    Int(i64),
    BigNum,
    Str(String),
    Arr(Vec<JsonValue>),
    Obj(Vec<(String, JsonValue)>),
}

/// The value of the first field named `key`, as an object lookup reads it.
pub open spec fn obj_lookup(fields: Seq<(String, JsonValue)>, key: Seq<char>) -> Option<JsonValue>
    decreases fields.len(),
{
    if fields.len() == 0 {
        None
    } else if fields[0].0@ == key {
        Some(fields[0].1)
    } else {
        obj_lookup(fields.drop_first(), key)
    }
}

/// Whether `a` spells `b`.
fn str_eq(a: &String, b: &str) -> (r: bool)
    ensures
        r == (a@ == b@),
{
    let owned = b.to_owned();
    *a == owned
}

/// Finds the first field named `key` in an object's field list.
pub fn obj_get<'a>(fields: &'a Vec<(String, JsonValue)>, key: &str) -> (r: Option<&'a JsonValue>)
    ensures
        match r {
            Some(v) => obj_lookup(fields@, key@) == Some(*v),
            None => obj_lookup(fields@, key@) is None,
        },
{
    let mut i: usize = 0;
    proof {
        assert(fields@.skip(0) =~= fields@);
    }
    while i < fields.len()
        invariant
            i <= fields.len(),
            obj_lookup(fields@, key@) == obj_lookup(fields@.skip(i as int), key@),
        decreases fields.len() - i,
    {
        proof {
            assert(fields@.skip(i as int)[0] == fields@[i as int]);
            assert(fields@.skip(i as int).drop_first() =~= fields@.skip(i + 1 as int));
        }
        if str_eq(&fields[i].0, key) {
            return Some(&fields[i].1);
        }
        i = i + 1;
    }
    proof {
        assert(fields@.skip(fields@.len() as int) =~= Seq::<(String, JsonValue)>::empty());
    }
    None
}

/// The JSON text that a value tree renders to; rendering is a function of
/// the tree alone (objects are emitted with sorted, deduplicated keys).
pub uninterp spec fn json_text_of(doc: JsonValue) -> Seq<char>;

/// The value tree that JSON text denotes, `None` when the text is not JSON;
/// parsing is a function of the text alone.
pub uninterp spec fn json_doc_of(s: Seq<char>) -> Option<JsonValue>;

} // verus!

verus! {

/// Relies on `serde_json::from_str::<serde_json::Value>`: parses JSON text
/// into a value tree, or reports the text malformed; which of the two, and
/// which tree, depends on the text alone.
#[verifier::external_body]
pub fn json_parse(s: &str) -> (r: Result<JsonValue, serde_json::Error>)
    ensures
        match r {
            Ok(d) => json_doc_of(s@) == Some(d),
            Err(_) => json_doc_of(s@) is None,
        },
{
    serde_json::from_str::<serde_json::Value>(s).map(|v| plain_of_value(&v))
}

/// Relies on `serde_json::to_string`: renders a value tree as JSON text.
/// It always succeeds here: a `serde_json::Value` serializes without I/O,
/// its map keys are strings, and its numbers are finite.
#[verifier::external_body]
pub fn json_dump(doc: &JsonValue) -> (r: Result<String, serde_json::Error>)
    ensures
        r is Ok,
        r->Ok_0@ == json_text_of(*doc),
{
    serde_json::to_string(&value_of_plain(doc))
}

/// Relies on `serde_json::Value` and `serde_json::Number::as_i64`: carries
/// each parsed variant over into plain data, field by field.
#[verifier::external_body]
fn plain_of_value(v: &serde_json::Value) -> JsonValue {
    match v {
        serde_json::Value::Null => JsonValue::Null,
        serde_json::Value::Bool(b) => JsonValue::Bool(*b),
        serde_json::Value::Number(n) => match n.as_i64() {
            Some(i) => JsonValue::Int(i),
            None => JsonValue::BigNum,
        },
        serde_json::Value::String(s) => JsonValue::Str(s.clone()),
        serde_json::Value::Array(a) => JsonValue::Arr(a.iter().map(plain_of_value).collect()),
        serde_json::Value::Object(m) => JsonValue::Obj(
            m.iter().map(|(k, v)| (k.clone(), plain_of_value(v))).collect(),
        ),
    }
}

/// Relies on `serde_json::Value`: carries plain data back into the
/// serializer's value type, variant by variant.
#[verifier::external_body]
fn value_of_plain(p: &JsonValue) -> serde_json::Value {
    match p {
        JsonValue::Null => serde_json::Value::Null,
        JsonValue::Bool(b) => serde_json::Value::Bool(*b),
        JsonValue::Int(i) => serde_json::Value::Number((*i).into()),
        JsonValue::BigNum => serde_json::Value::Null,
        JsonValue::Str(s) => serde_json::Value::String(s.clone()),
        JsonValue::Arr(a) => serde_json::Value::Array(a.iter().map(value_of_plain).collect()),
        JsonValue::Obj(f) => serde_json::Value::Object(
            f.iter().map(|(k, v)| (k.clone(), value_of_plain(v))).collect(),
        ),
    }
}

/// The external type that the parser reports a malformed text with.
#[verifier::external_type_specification]
#[verifier::external_body]
pub struct ExJsonError(serde_json::Error);

/// The serializer's own value type, carried opaquely through the converters.
#[verifier::external_type_specification]
#[verifier::external_body]
pub struct ExJsonNodeValue(serde_json::Value);

} // verus!
