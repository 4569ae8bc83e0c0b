//! JSON documents as plain values, and the fields that the protocols read
//! from them.

use vstd::prelude::*;
use vstd::string::StrSliceExecFns;

use crate::env::str_eq;

verus! {

/// A JSON document as plain values. Numbers are kept only as such: no
/// protocol here reads their value.
#[derive(Debug)]
pub enum JsonValue {
    Null,
    Bool(bool),
    Number,
    String(String),
    Array(Vec<JsonValue>),
    Object(Vec<(String, JsonValue)>),
}

/// What a JSON text decodes to; `None` when it is not one JSON document.
pub uninterp spec fn json_document(text: Seq<char>) -> Option<JsonValue>;

/// Turns a serde_json document into plain values, variant by variant.
/// Only [`parse_json`] calls it; it makes no claim of its own.
#[verifier::external_body]
fn json_value_from(v: serde_json::Value) -> JsonValue {
    match v {
        serde_json::Value::Null => JsonValue::Null,
        serde_json::Value::Bool(b) => JsonValue::Bool(b),
        serde_json::Value::Number(_) => JsonValue::Number,
        serde_json::Value::String(s) => JsonValue::String(s),
        serde_json::Value::Array(a) => JsonValue::Array(a.into_iter().map(json_value_from).collect()),
        serde_json::Value::Object(m) => JsonValue::Object(
            m.into_iter().map(|(k, v)| (k, json_value_from(v))).collect(),
        ),
    }
}

/// `serde_json::from_str::<serde_json::Value>`, its document turned into
/// plain values. The contract only names the outcome: the document, or
/// `None` where serde_json reports an error.
#[verifier::external_body]
pub fn parse_json(text: &str) -> (r: Option<JsonValue>)
    ensures
        r == json_document(text@),
{
    serde_json::from_str::<serde_json::Value>(text).ok().map(json_value_from)
}

/// The characters that Unicode's `White_Space` property marks.
pub open spec fn unicode_white_space(c: char) -> bool {
    let n = c as u32;
    (0x9 <= n <= 0xD) || n == 0x20 || n == 0x85 || n == 0xA0 || n == 0x1680 || (0x2000 <= n
        <= 0x200A) || n == 0x2028 || n == 0x2029 || n == 0x202F || n == 0x205F || n == 0x3000
}

/// The characters with leading white space removed.
pub open spec fn trim_start_chars(s: Seq<char>) -> Seq<char>
    decreases s.len(),
{
    if s.len() > 0 && unicode_white_space(s[0]) {
        trim_start_chars(s.drop_first())
    } else {
        s
    }
}

/// The characters with trailing white space removed.
pub open spec fn trim_end_chars(s: Seq<char>) -> Seq<char>
    decreases s.len(),
{
    if s.len() > 0 && unicode_white_space(s.last()) {
        trim_end_chars(s.drop_last())
    } else {
        s
    }
}

/// The characters with leading and trailing white space removed.
pub open spec fn trimmed(s: Seq<char>) -> Seq<char> {
    trim_end_chars(trim_start_chars(s))
}

/// `str::trim`: the text without its leading and trailing characters of
/// Unicode's `White_Space` property, as std documents it.
#[verifier::external_body]
pub fn trim_white_space(s: &str) -> (r: &str)
    ensures
        r@ == trimmed(s@),
{
    s.trim()
}

/// The value of the first entry named `key` among an object's entries.
pub open spec fn entry_value(entries: Seq<(String, JsonValue)>, key: Seq<char>) -> Option<JsonValue>
    decreases entries.len(),
{
    if entries.len() == 0 {
        None
    } else if entries[0].0@ == key {
        Some(entries[0].1)
    } else {
        entry_value(entries.drop_first(), key)
    }
}

/// The field `key` of an object; `None` for a missing field or a document
/// that is not an object.
pub open spec fn object_field(v: JsonValue, key: Seq<char>) -> Option<JsonValue> {
    match v {
        JsonValue::Object(entries) => entry_value(entries@, key),
        _ => None,
    }
}

/// The field `key` of an object where it is a JSON string.
pub open spec fn string_field(v: JsonValue, key: Seq<char>) -> Option<String> {
    match object_field(v, key) {
        Some(JsonValue::String(s)) => Some(s),
        _ => None,
    }
}

/// The characters of [`string_field`].
pub open spec fn str_field(v: JsonValue, key: Seq<char>) -> Option<Seq<char>> {
    match string_field(v, key) {
        Some(s) => Some(s@),
        None => None,
    }
}

/// The field `key` of an object, if it has one.
pub fn get_field<'a>(v: &'a JsonValue, key: &str) -> (r: Option<&'a JsonValue>)
    ensures
        match r {
            Some(f) => object_field(*v, key@) == Some(*f),
            None => object_field(*v, key@) is None,
        },
{
    match v {
        JsonValue::Object(entries) => {
            let ghost es = entries@;
            let mut i: usize = 0;
            assert(es.subrange(0, es.len() as int) =~= es);
            assert(object_field(*v, key@) == entry_value(es, key@));
            while i < entries.len()
                invariant
                    i <= es.len(),
                    es == entries@,
                    object_field(*v, key@) == entry_value(es, key@),
                    entry_value(es, key@) == entry_value(es.subrange(i as int, es.len() as int), key@),
                decreases es.len() - i,
            {
                let ghost rest = es.subrange(i as int, es.len() as int);
                assert(rest[0] == es[i as int]);
                if str_eq(entries[i].0.as_str(), key) {
                    assert(rest[0].0@ == key@);
                    assert(entry_value(rest, key@) == Some(rest[0].1));
                    return Some(&entries[i].1);
                }
                assert(rest.drop_first() =~= es.subrange(i + 1, es.len() as int));
                i = i + 1;
            }
            None
        },
        _ => None,
    }
}

/// The field `key` of an object where it is a JSON string, copied.
pub fn get_string_field(v: &JsonValue, key: &str) -> (r: Option<String>)
    ensures
        r == string_field(*v, key@),
{
    match get_field(v, key) {
        Some(JsonValue::String(s)) => Some(s.clone()),
        _ => None,
    }
}

} // verus!
