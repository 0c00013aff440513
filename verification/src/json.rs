//! JSON documents: the library's model of one decoded document, the trusted
//! decoder around `serde_json`, and verified field access on the model.
//!
//! Decoding bytes is delegated to `serde_json`; the decoded tree is rendered
//! one-for-one into [`JsonDoc`], whose every part is a plain value, so that
//! all record-schema logic downstream is verified code with exact contracts.

use vstd::prelude::*;
use vstd::string::*;

verus! {

/// One decoded JSON document.
///
/// A number carries what `serde_json` exposes of it: its `u64` and `i64`
/// values where it has them, and its rendering. An object's fields come in
/// the decoder's order with unique keys; a duplicated key in the input keeps
/// its last value, as `serde_json` does.
pub enum JsonDoc {
    Null,
    Bool(bool),
    Num { unsigned: Option<u64>, signed: Option<i64>, text: String },
    Text(String),
    Arr(Vec<JsonDoc>),
    Obj(Vec<(String, JsonDoc)>),
}

#[verifier::external_type_specification]
#[verifier::external_body]
pub struct ExJsonValue(serde_json::Value);

/// What decoding the bytes yields: the document for well-formed JSON, `None`
/// otherwise. Names the result of `serde_json::from_slice::<Value>` rendered
/// into the model, which depends on the bytes alone.
pub uninterp spec fn json_value_of(s: Seq<u8>) -> Option<JsonDoc>;

/// Relies on serde_json::from_slice::<Value>: decodes one JSON document,
/// succeeding exactly on well-formed JSON; the error is rendered as text.
#[verifier::external_body]
pub(crate) fn parse_json_document(line: &[u8]) -> (r: Result<JsonDoc, String>)
    ensures
        r is Ok <==> json_value_of(line@) is Some,
        r matches Ok(d) ==> json_value_of(line@) == Some(d),
{
    match serde_json::from_slice::<serde_json::Value>(line) {
        Ok(v) => Ok(doc_of_value(v)),
        Err(e) => Err(e.to_string()),
    }
}

/// Renders a decoded `serde_json::Value` one-for-one into the model: one arm
/// per variant, numbers as their `u64`/`i64` values and rendering.
#[verifier::external_body]
fn doc_of_value(v: serde_json::Value) -> JsonDoc {
    match v {
        serde_json::Value::Null => JsonDoc::Null,
        serde_json::Value::Bool(b) => JsonDoc::Bool(b),
        serde_json::Value::Number(n) => JsonDoc::Num {
            unsigned: n.as_u64(),
            signed: n.as_i64(),
            text: n.to_string(),
        },
        serde_json::Value::String(s) => JsonDoc::Text(s),
        serde_json::Value::Array(a) => JsonDoc::Arr(a.into_iter().map(doc_of_value).collect()),
        serde_json::Value::Object(m) => JsonDoc::Obj(
            m.into_iter().map(|(k, x)| (k, doc_of_value(x))).collect(),
        ),
    }
}

/// The value under a key among an object's fields, front first.
pub open spec fn lookup(fs: Seq<(String, JsonDoc)>, key: Seq<char>) -> Option<JsonDoc>
    decreases fs.len(),
{
    if fs.len() == 0 {
        None
    } else if fs.first().0@ == key {
        Some(fs.first().1)
    } else {
        lookup(fs.drop_first(), key)
    }
}

/// Looks a key up among an object's fields.
pub(crate) fn doc_get<'a>(fs: &'a Vec<(String, JsonDoc)>, key: &str) -> (r: Option<&'a JsonDoc>)
    ensures
        match r {
            Some(d) => lookup(fs@, key@) == Some(*d),
            None => lookup(fs@, key@) is None,
        },
{
    let k = String::from_str(key);
    let mut i: usize = 0;
    proof {
        assert(fs@.skip(0) =~= fs@);
    }
    while i < fs.len()
        invariant
            i <= fs@.len(),
            k@ == key@,
            lookup(fs@, key@) == lookup(fs@.skip(i as int), key@),
        decreases fs@.len() - i,
    {
        proof {
            assert(fs@.skip(i as int).first() == fs@[i as int]);
            assert(fs@.skip(i as int).drop_first() =~= fs@.skip(i as int + 1));
        }
        if fs[i].0 == k {
            return Some(&fs[i].1);
        }
        i += 1;
    }
    proof {
        assert(fs@.skip(i as int) =~= Seq::<(String, JsonDoc)>::empty());
    }
    None
}

/// A field holding a string.
pub open spec fn spec_string_field(fs: Seq<(String, JsonDoc)>, key: Seq<char>) -> Option<String> {
    match lookup(fs, key) {
        Some(JsonDoc::Text(s)) => Some(s),
        _ => None,
    }
}

pub(crate) fn string_field(fs: &Vec<(String, JsonDoc)>, key: &str) -> (r: Option<String>)
    ensures
        r == spec_string_field(fs@, key@),
{
    match doc_get(fs, key) {
        Some(d) => match d {
            JsonDoc::Text(s) => Some(s.clone()),
            _ => None,
        },
        None => None,
    }
}

/// A field holding a number with a `u64` value.
pub open spec fn spec_u64_field(fs: Seq<(String, JsonDoc)>, key: Seq<char>) -> Option<u64> {
    match lookup(fs, key) {
        Some(JsonDoc::Num { unsigned, .. }) => unsigned,
        _ => None,
    }
}

pub(crate) fn u64_field(fs: &Vec<(String, JsonDoc)>, key: &str) -> (r: Option<u64>)
    ensures
        r == spec_u64_field(fs@, key@),
{
    match doc_get(fs, key) {
        Some(d) => match d {
            JsonDoc::Num { unsigned, .. } => *unsigned,
            _ => None,
        },
        None => None,
    }
}

/// A field holding a number with an `i64` value.
pub open spec fn spec_i64_field(fs: Seq<(String, JsonDoc)>, key: Seq<char>) -> Option<i64> {
    match lookup(fs, key) {
        Some(JsonDoc::Num { signed, .. }) => signed,
        _ => None,
    }
}

pub(crate) fn i64_field(fs: &Vec<(String, JsonDoc)>, key: &str) -> (r: Option<i64>)
    ensures
        r == spec_i64_field(fs@, key@),
{
    match doc_get(fs, key) {
        Some(d) => match d {
            JsonDoc::Num { signed, .. } => *signed,
            _ => None,
        },
        None => None,
    }
}

/// A field holding any number, kept as its rendering.
pub open spec fn spec_number_text_field(fs: Seq<(String, JsonDoc)>, key: Seq<char>) -> Option<
    String,
> {
    match lookup(fs, key) {
        Some(JsonDoc::Num { text, .. }) => Some(text),
        _ => None,
    }
}

pub(crate) fn number_text_field(fs: &Vec<(String, JsonDoc)>, key: &str) -> (r: Option<String>)
    ensures
        r == spec_number_text_field(fs@, key@),
{
    match doc_get(fs, key) {
        Some(d) => match d {
            JsonDoc::Num { text, .. } => Some(text.clone()),
            _ => None,
        },
        None => None,
    }
}

/// An optional string field: absent or null is fine, any other non-string
/// value is a shape failure.
pub open spec fn spec_opt_string_field(fs: Seq<(String, JsonDoc)>, key: Seq<char>) -> Result<
    Option<String>,
    (),
> {
    match lookup(fs, key) {
        None => Ok(None),
        Some(JsonDoc::Null) => Ok(None),
        Some(JsonDoc::Text(s)) => Ok(Some(s)),
        Some(_) => Err(()),
    }
}

pub(crate) fn opt_string_field(fs: &Vec<(String, JsonDoc)>, key: &str) -> (r: Result<
    Option<String>,
    (),
>)
    ensures
        r == spec_opt_string_field(fs@, key@),
{
    match doc_get(fs, key) {
        None => Ok(None),
        Some(d) => match d {
            JsonDoc::Null => Ok(None),
            JsonDoc::Text(s) => Ok(Some(s.clone())),
            _ => Err(()),
        },
    }
}

/// An optional boolean field, with the same shape rules.
pub open spec fn spec_opt_bool_field(fs: Seq<(String, JsonDoc)>, key: Seq<char>) -> Result<
    Option<bool>,
    (),
> {
    match lookup(fs, key) {
        None => Ok(None),
        Some(JsonDoc::Null) => Ok(None),
        Some(JsonDoc::Bool(b)) => Ok(Some(b)),
        Some(_) => Err(()),
    }
}

pub(crate) fn opt_bool_field(fs: &Vec<(String, JsonDoc)>, key: &str) -> (r: Result<
    Option<bool>,
    (),
>)
    ensures
        r == spec_opt_bool_field(fs@, key@),
{
    match doc_get(fs, key) {
        None => Ok(None),
        Some(d) => match d {
            JsonDoc::Null => Ok(None),
            JsonDoc::Bool(b) => Ok(Some(*b)),
            _ => Err(()),
        },
    }
}

} // verus!
