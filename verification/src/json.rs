//! What the library reads from a `serde_json::Value` and how it makes one.
//!
//! A document is opaque to the proofs. Each function here makes one call
//! into `serde_json`, and its contract gives the call's result a name, so
//! that the contracts of the functions that use it can speak of the
//! result.

use vstd::prelude::*;
use serde_json::Value;

verus! {

/// The compact JSON text of a document.
pub uninterp spec fn json_text(v: Value) -> Seq<char>;

/// The member of an object under a key. `None` for a document that is no
/// object and for a key that the object does not hold.
pub uninterp spec fn json_member(v: Value, key: Seq<char>) -> Option<Value>;

/// The text of a document that is a string. `None` for any other document.
pub uninterp spec fn json_str(v: Value) -> Option<Seq<char>>;

/// The keys and members of an object, in the order in which the object
/// hands them out. `None` for a document that is no object.
pub uninterp spec fn json_entries(v: Value) -> Option<Seq<(Seq<char>, Value)>>;

/// The items of an array, in order. `None` for a document that is no array.
pub uninterp spec fn json_items(v: Value) -> Option<Seq<Value>>;

/// The document that is the string `s`.
pub uninterp spec fn json_of_text(s: Seq<char>) -> Value;

/// The document that is the number `n`.
pub uninterp spec fn json_of_number(n: u64) -> Value;

/// The object that is collected from keys and members. Of two members with
/// the same key the later one stays.
pub uninterp spec fn json_of_entries(entries: Seq<(Seq<char>, Value)>) -> Value;

/// The keys and members of a vector of pairs.
pub open spec fn entries_view(entries: Seq<(String, Value)>) -> Seq<(Seq<char>, Value)> {
    Seq::new(entries.len(), |i: int| (entries[i].0@, entries[i].1))
}

/// `Value`'s `Display`: the document as compact JSON text.
#[verifier::external_body]
pub(crate) fn to_text(v: &Value) -> (s: String)
    ensures
        s@ == json_text(*v),
{
    v.to_string()
}

/// `Value::get` with a text key: the member of an object under that key.
#[verifier::external_body]
pub(crate) fn member<'a>(v: &'a Value, key: &str) -> (r: Option<&'a Value>)
    ensures
        r == match json_member(*v, key@) {
            Some(m) => Some(&m),
            None => None,
        },
{
    v.get(key)
}

/// `Value::as_str`: the text of a document that is a string.
#[verifier::external_body]
pub(crate) fn as_text<'a>(v: &'a Value) -> (r: Option<&'a str>)
    ensures
        r is Some <==> json_str(*v) is Some,
        r matches Some(s) ==> json_str(*v) == Some(s@),
{
    v.as_str()
}

/// `Value::as_object`, with a copy of each key and member in the order of
/// the object's iterator.
#[verifier::external_body]
pub(crate) fn entries(v: &Value) -> (r: Option<Vec<(String, Value)>>)
    ensures
        r is Some <==> json_entries(*v) is Some,
        r matches Some(list) ==> json_entries(*v) == Some(entries_view(list@)),
{
    v.as_object().map(|object| object.iter().map(|(k, m)| (k.clone(), m.clone())).collect())
}

/// `Value::as_array`, with a copy of each item.
#[verifier::external_body]
pub(crate) fn items(v: &Value) -> (r: Option<Vec<Value>>)
    ensures
        r is Some <==> json_items(*v) is Some,
        r matches Some(list) ==> json_items(*v) == Some(list@),
{
    v.as_array().cloned()
}

/// `Value::String`: the document that is a string.
#[verifier::external_body]
pub(crate) fn text_value(s: String) -> (v: Value)
    ensures
        v == json_of_text(s@),
{
    Value::String(s)
}

/// `Value::from` of an unsigned number: the document that is that number.
#[verifier::external_body]
pub(crate) fn number_value(n: u64) -> (v: Value)
    ensures
        v == json_of_number(n),
{
    Value::from(n)
}

/// `Value::Bool`: the document `true` or `false`.
#[verifier::external_body]
pub(crate) fn bool_value(b: bool) -> (v: Value)
    ensures
        v == json_of_bool(b),
{
    Value::Bool(b)
}

/// The document that is `true` or `false`.
pub uninterp spec fn json_of_bool(b: bool) -> Value;

/// `Value`'s `FromIterator` for pairs: the object with those keys and
/// members.
#[verifier::external_body]
pub(crate) fn object_value(entries: Vec<(String, Value)>) -> (v: Value)
    ensures
        v == json_of_entries(entries_view(entries@)),
{
    entries.into_iter().collect()
}

/// The array with those items, in order.
pub uninterp spec fn json_of_items(items: Seq<Value>) -> Value;

/// `Value::Array`: the array with those items.
#[verifier::external_body]
pub(crate) fn array_value(items: Vec<Value>) -> (v: Value)
    ensures
        v == json_of_items(items@),
{
    Value::Array(items)
}

/// The document that a JSON text stands for, or the parser's message
/// where the text is not JSON.
pub uninterp spec fn json_parsed(text: Seq<char>) -> Result<Value, Seq<char>>;

/// `serde_json::from_str`: the document that a JSON text stands for. An
/// error is given as its message.
#[verifier::external_body]
pub(crate) fn parse_json(text: &str) -> (r: Result<Value, String>)
    ensures
        match r {
            Ok(v) => json_parsed(text@) == Ok::<Value, Seq<char>>(v),
            Err(e) => json_parsed(text@) == Err::<Value, Seq<char>>(e@),
        },
{
    serde_json::from_str::<Value>(text).map_err(|e| e.to_string())
}

/// The document that a TOML text stands for, with tables as objects, or
/// the message of the error where the text is not TOML.
pub uninterp spec fn toml_parsed(text: Seq<char>) -> Result<Value, Seq<char>>;

/// `toml::from_str`, with the value handed on as a JSON document by
/// `serde_json::to_value`. An error is given as its message.
#[verifier::external_body]
pub(crate) fn parse_toml(text: &str) -> (r: Result<Value, String>)
    ensures
        match r {
            Ok(v) => toml_parsed(text@) == Ok::<Value, Seq<char>>(v),
            Err(e) => toml_parsed(text@) == Err::<Value, Seq<char>>(e@),
        },
{
    match toml::from_str::<toml::Value>(text) {
        Ok(value) => serde_json::to_value(value).map_err(|e| e.to_string()),
        Err(e) => Err(e.to_string()),
    }
}

/// The number of a document that is a number which fits an unsigned 64-bit
/// integer. `None` for any other document.
pub uninterp spec fn json_u64(v: Value) -> Option<u64>;

/// `Value::as_u64`: the number of a document, where it is one that fits.
#[verifier::external_body]
pub(crate) fn as_number(v: &Value) -> (r: Option<u64>)
    ensures
        r == json_u64(*v),
{
    v.as_u64()
}

/// The truth value of a document that is `true` or `false`. `None` for any
/// other document.
pub uninterp spec fn json_bool(v: Value) -> Option<bool>;

/// `Value::as_bool`: the truth value of a document, where it is one.
#[verifier::external_body]
pub(crate) fn as_truth(v: &Value) -> (r: Option<bool>)
    ensures
        r == json_bool(*v),
{
    v.as_bool()
}

/// The document that is a text, or `null` where there is none.
pub uninterp spec fn json_of_optional_text(text: Option<Seq<char>>) -> Value;

/// `Value::from` of an optional text: the text as a string, or `null`.
#[verifier::external_body]
pub(crate) fn optional_text_value(text: Option<String>) -> (v: Value)
    ensures
        v == json_of_optional_text(
            match text {
                Some(t) => Some(t@),
                None => None,
            },
        ),
{
    Value::from(text)
}

} // verus!
