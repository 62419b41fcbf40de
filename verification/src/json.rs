//! The JSON values that an error payload carries, and the calls into
//! `serde_json` that read, build, print and parse them.
//!
//! A `serde_json::Value` is opaque to the verifier. Its contents are spoken of
//! through [`json_model`]; every function in this module whose body is not
//! verified says so in its documentation, together with what is taken on trust
//! about the call it makes.
//!
//! `serde_json` is used with its default features: a number is stored as an
//! integer or as a 64-bit binary fraction, and an object keeps its entries
//! sorted by key.

use vstd::prelude::*;

verus! {

/// `serde_json::Value`, carried through as an opaque value.
#[verifier::external_type_specification]
#[verifier::external_body]
pub struct ExJsonValue(serde_json::Value);

/// `serde_json::Map`, the keyed collection behind a JSON object.
#[verifier::external_type_specification]
#[verifier::external_body]
#[verifier::reject_recursive_types(K)]
#[verifier::reject_recursive_types(V)]
pub struct ExJsonMap<K, V>(serde_json::Map<K, V>);

/// `serde_json::Error`, carried through as an opaque value.
#[verifier::external_type_specification]
#[verifier::external_body]
pub struct ExJsonError(serde_json::Error);

/// What a JSON value holds.
pub enum JsonModel {
    Null,
    Boolean(bool),
    /// A number stored as an integer, by its value.
    Integer(int),
    /// A number stored as a 64-bit binary fraction, by its bits.
    Fraction(u64),
    Text(Seq<char>),
    List(Seq<JsonModel>),
    /// An object: each key with the value stored under it.
    Object(Map<Seq<char>, JsonModel>),
}

/// The contents of a `serde_json::Value`.
pub uninterp spec fn json_model(v: serde_json::Value) -> JsonModel;

/// The contents of a `serde_json::Map`: each key with the contents of its value.
pub uninterp spec fn json_entries(m: serde_json::Map<String, serde_json::Value>) -> Map<
    Seq<char>,
    JsonModel,
>;

/// The compact JSON text that `serde_json` prints for a value with the
/// contents `m`.
pub uninterp spec fn json_text(m: JsonModel) -> Seq<char>;

/// The contents of the value that `serde_json` reads from a text, where the
/// text is one JSON value and nothing else.
pub uninterp spec fn json_parse(text: Seq<char>) -> Option<JsonModel>;

/// The contents of an object without entries.
pub open spec fn no_entries() -> Map<Seq<char>, JsonModel> {
    Map::empty()
}

/// The value stored under `key`, where `m` is an object that has the key.
pub open spec fn member(m: JsonModel, key: Seq<char>) -> Option<JsonModel> {
    match m {
        JsonModel::Object(entries) => if entries.contains_key(key) {
            Some(entries[key])
        } else {
            None
        },
        _ => None,
    }
}

/// The integer that `m` holds, where it is one that fits in 64 signed bits.
pub open spec fn integer_of(m: JsonModel) -> Option<i64> {
    match m {
        JsonModel::Integer(i) => if i64::MIN <= i <= i64::MAX {
            Some(i as i64)
        } else {
            None
        },
        _ => None,
    }
}

/// The characters that `m` holds, where it is a string.
pub open spec fn text_of(m: JsonModel) -> Option<Seq<char>> {
    match m {
        JsonModel::Text(s) => Some(s),
        _ => None,
    }
}

/// Trusted: `Display` of `serde_json::Value` in its plain form, which prints
/// the compact JSON text of the value. The text follows from the contents
/// alone: the entries of an object are printed in the order of their keys,
/// whatever the order in which they were stored.
#[verifier::external_body]
pub(crate) fn value_text(v: &serde_json::Value) -> (r: String)
    ensures
        r@ == json_text(json_model(*v)),
{
    v.to_string()
}

/// Trusted: `serde_json::from_str` into a `Value`. It returns the value that
/// the text denotes, or an error where the text is no JSON value or is
/// followed by more than white space.
#[verifier::external_body]
pub(crate) fn parse_value(text: &str) -> (r: Result<serde_json::Value, serde_json::Error>)
    ensures
        match r {
            Ok(v) => json_parse(text@) == Some(json_model(v)),
            Err(_) => json_parse(text@) is None,
        },
{
    serde_json::from_str::<serde_json::Value>(text)
}

/// Trusted: `Clone` of `serde_json::Value`, which returns an equal value.
#[verifier::external_body]
pub(crate) fn value_clone(v: &serde_json::Value) -> (r: serde_json::Value)
    ensures
        r == *v,
{
    v.clone()
}

/// Trusted: `Value::is_null`, true for JSON `null` and for nothing else.
#[verifier::external_body]
pub(crate) fn value_is_null(v: &serde_json::Value) -> (r: bool)
    ensures
        r == (json_model(*v) is Null),
{
    v.is_null()
}

/// Trusted: `Value::as_i64`, which returns the number where the value is an
/// integer from `i64::MIN` to `i64::MAX`, and `None` for every other value.
#[verifier::external_body]
pub(crate) fn value_as_i64(v: &serde_json::Value) -> (r: Option<i64>)
    ensures
        r == integer_of(json_model(*v)),
{
    v.as_i64()
}

/// Trusted: `Value::as_str`, which returns the characters where the value is
/// a string, and `None` for every other value.
#[verifier::external_body]
pub(crate) fn value_as_str(v: &serde_json::Value) -> (r: Option<&str>)
    ensures
        (match r {
            Some(s) => Some(s@),
            None => None,
        }) == text_of(json_model(*v)),
{
    v.as_str()
}

/// Trusted: `Value::get` with a string index, which returns the value stored
/// under the key where the value is an object that has the key, and `None`
/// otherwise.
#[verifier::external_body]
pub(crate) fn value_member<'a>(v: &'a serde_json::Value, key: &str) -> (r: Option<
    &'a serde_json::Value,
>)
    ensures
        (match r {
            Some(found) => Some(json_model(*found)),
            None => None,
        }) == member(json_model(*v), key@),
{
    v.get(key)
}

/// Trusted: `Value::from` on an `i64`, which makes the number with that
/// integer value.
#[verifier::external_body]
pub(crate) fn integer_value(n: i64) -> (r: serde_json::Value)
    ensures
        json_model(r) == JsonModel::Integer(n as int),
{
    serde_json::Value::from(n)
}

/// Trusted: the variant `Value::String`, the JSON string of the characters given.
#[verifier::external_body]
pub(crate) fn text_value(s: String) -> (r: serde_json::Value)
    ensures
        json_model(r) == JsonModel::Text(s@),
{
    serde_json::Value::String(s)
}

/// Trusted: the variant `Value::Object`, the JSON object of the entries given.
#[verifier::external_body]
pub(crate) fn object_value(entries: serde_json::Map<String, serde_json::Value>) -> (r:
    serde_json::Value)
    ensures
        json_model(r) == JsonModel::Object(json_entries(entries)),
{
    serde_json::Value::Object(entries)
}

/// Trusted: `Map::new`, a map without entries.
#[verifier::external_body]
pub(crate) fn entries_new() -> (r: serde_json::Map<String, serde_json::Value>)
    ensures
        json_entries(r) == no_entries(),
{
    serde_json::Map::new()
}

/// Trusted: `Map::insert`, which stores the value under the key, in place of
/// a value that the key had, and returns that earlier value.
#[verifier::external_body]
pub(crate) fn entries_insert(
    entries: &mut serde_json::Map<String, serde_json::Value>,
    key: String,
    value: serde_json::Value,
) -> (r: Option<serde_json::Value>)
    ensures
        json_entries(*final(entries)) == json_entries(*old(entries)).insert(
            key@,
            json_model(value),
        ),
        (match r {
            Some(earlier) => Some(json_model(earlier)),
            None => None,
        }) == member(JsonModel::Object(json_entries(*old(entries))), key@),
{
    entries.insert(key, value)
}

/// Trusted: `serde::de::Error::custom` for `serde_json::Error`, which makes an
/// error that carries the message. Nothing is claimed of the result.
#[verifier::external_body]
pub(crate) fn shape_error(message: &str) -> serde_json::Error {
    serde::de::Error::custom(message)
}

} // verus!
