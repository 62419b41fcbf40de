//! The wire form of an error payload: a JSON object.
//!
//! The object holds `code` and `msg`, and `error_code`, `internal_error`,
//! `internal_message` and `error_id` where the payload has them. A field that
//! the payload lacks has no key in the object. On reading, a key that is
//! absent or holds `null` gives an absent optional field, and keys that are no
//! field of the payload are passed over. Where a text gives one key several
//! times, the JSON reader keeps the last value.

use crate::error::AuthError;
use crate::json::{
    entries_insert, entries_new, integer_value, json_entries, json_model, json_parse, json_text,
    member, object_value, parse_value, shape_error, text_value, value_as_i64, value_as_str,
    value_clone, value_is_null, value_member, value_text, JsonModel,
};
use crate::payload::{PayloadView, SupabaseHTTPError};
use vstd::prelude::*;

verus! {

/// Whether the wire form of `p` has the key.
pub open spec fn has_field(p: PayloadView, key: Seq<char>) -> bool {
    ||| key == "code"@
    ||| key == "msg"@
    ||| key == "error_code"@ && p.error_code is Some
    ||| key == "internal_error"@ && p.internal_error is Some
    ||| key == "internal_message"@ && p.internal_message is Some
    ||| key == "error_id"@ && p.error_id is Some
}

/// What the wire form of `p` holds under a key that it has.
pub open spec fn field_value(p: PayloadView, key: Seq<char>) -> JsonModel {
    if key == "code"@ {
        JsonModel::Integer(p.code)
    } else if key == "msg"@ {
        JsonModel::Text(p.message)
    } else if key == "error_code"@ {
        JsonModel::Text(p.error_code->0)
    } else if key == "internal_error"@ {
        p.internal_error->0
    } else if key == "internal_message"@ {
        p.internal_message->0
    } else {
        JsonModel::Text(p.error_id->0)
    }
}

/// The wire form of a payload.
pub open spec fn encode(p: PayloadView) -> JsonModel {
    JsonModel::Object(
        Map::new(|key: Seq<char>| has_field(p, key), |key: Seq<char>| field_value(p, key)),
    )
}

/// The field `code`: an integer that fits in 32 signed bits.
pub open spec fn required_code(m: JsonModel) -> Option<int> {
    match member(m, "code"@) {
        Some(JsonModel::Integer(i)) => if i32::MIN <= i <= i32::MAX {
            Some(i)
        } else {
            None
        },
        _ => None,
    }
}

/// A field that must be there and hold a string.
pub open spec fn required_text(m: JsonModel, key: Seq<char>) -> Option<Seq<char>> {
    match member(m, key) {
        Some(JsonModel::Text(s)) => Some(s),
        _ => None,
    }
}

/// A field that may be missing or `null`, and holds a string otherwise. The
/// outer `None` stands for a value of another kind, which is refused.
pub open spec fn optional_text(m: JsonModel, key: Seq<char>) -> Option<Option<Seq<char>>> {
    match member(m, key) {
        None => Some(None),
        Some(JsonModel::Null) => Some(None),
        Some(JsonModel::Text(s)) => Some(Some(s)),
        Some(_) => None,
    }
}

/// A field that may be missing or `null`, and holds any JSON value otherwise.
pub open spec fn optional_json(m: JsonModel, key: Seq<char>) -> Option<JsonModel> {
    match member(m, key) {
        None => None,
        Some(JsonModel::Null) => None,
        Some(found) => Some(found),
    }
}

/// The payload that a JSON value stands for, where it stands for one.
pub open spec fn decode(m: JsonModel) -> Option<PayloadView> {
    match (
        required_code(m),
        required_text(m, "msg"@),
        optional_text(m, "error_code"@),
        optional_text(m, "error_id"@),
    ) {
        (Some(code), Some(message), Some(error_code), Some(error_id)) => Some(
            PayloadView {
                code,
                error_code,
                message,
                internal_error: optional_json(m, "internal_error"@),
                internal_message: optional_json(m, "internal_message"@),
                error_id,
            },
        ),
        _ => None,
    }
}

/// Whether `r` is the outcome of reading a payload from `m`: the payload that
/// `m` stands for, or a parse error where it stands for none.
pub open spec fn reads_as(m: JsonModel, r: Result<SupabaseHTTPError, AuthError>) -> bool {
    match r {
        Ok(payload) => decode(m) == Some(payload@),
        Err(e) => decode(m) is None && e is ParseError,
    }
}

/// The lengths of the six keys of the wire form, no two of which are equal.
proof fn lemma_key_lengths()
    ensures
        "code"@.len() == 4,
        "msg"@.len() == 3,
        "error_code"@.len() == 10,
        "internal_error"@.len() == 14,
        "internal_message"@.len() == 16,
        "error_id"@.len() == 8,
{
    reveal_strlit("code");
    reveal_strlit("msg");
    reveal_strlit("error_code");
    reveal_strlit("internal_error");
    reveal_strlit("internal_message");
    reveal_strlit("error_id");
}

/// Writing a payload and reading it back gives the payload again, provided
/// that neither internal field holds JSON `null`: a field that holds `null`
/// reads back as absent.
pub proof fn lemma_round_trip(payload: SupabaseHTTPError)
    requires
        payload@.internal_error != Some(JsonModel::Null),
        payload@.internal_message != Some(JsonModel::Null),
    ensures
        decode(encode(payload@)) == Some(payload@),
{
    lemma_key_lengths();
    let p = payload@;
    let m = encode(p);
    assert(member(m, "code"@) == Some(JsonModel::Integer(p.code)));
    assert(member(m, "msg"@) == Some(JsonModel::Text(p.message)));
    assert(optional_text(m, "error_code"@) == Some(p.error_code));
    assert(optional_text(m, "error_id"@) == Some(p.error_id));
    assert(optional_json(m, "internal_error"@) == p.internal_error);
    assert(optional_json(m, "internal_message"@) == p.internal_message);
}

/// The wire form has a key for an optional field exactly where the payload
/// has the field, and then holds the field under it. It always holds the code
/// under `code` and the message under `msg`.
pub proof fn lemma_absent_fields_have_no_key(payload: SupabaseHTTPError)
    ensures
        member(encode(payload@), "error_code"@) == (match payload@.error_code {
            Some(s) => Some(JsonModel::Text(s)),
            None => None,
        }),
        member(encode(payload@), "error_id"@) == (match payload@.error_id {
            Some(s) => Some(JsonModel::Text(s)),
            None => None,
        }),
        member(encode(payload@), "internal_error"@) == payload@.internal_error,
        member(encode(payload@), "internal_message"@) == payload@.internal_message,
        member(encode(payload@), "code"@) == Some(JsonModel::Integer(payload@.code)),
        member(encode(payload@), "msg"@) == Some(JsonModel::Text(payload@.message)),
{
    lemma_key_lengths();
}

/// A JSON value that lacks `code` or `msg` stands for no payload, and so does
/// one that is no object.
pub proof fn lemma_required_fields(m: JsonModel)
    ensures
        member(m, "code"@) is None ==> decode(m) is None,
        member(m, "msg"@) is None ==> decode(m) is None,
        !(m is Object) ==> decode(m) is None,
{
}

/// A key that is no field of the payload does not change what is read.
pub proof fn lemma_unknown_key_is_ignored(
    entries: Map<Seq<char>, JsonModel>,
    key: Seq<char>,
    value: JsonModel,
)
    requires
        key != "code"@,
        key != "msg"@,
        key != "error_code"@,
        key != "internal_error"@,
        key != "internal_message"@,
        key != "error_id"@,
    ensures
        decode(JsonModel::Object(entries.insert(key, value))) == decode(
            JsonModel::Object(entries),
        ),
{
}

/// Makes the error for a field that is missing or holds the wrong kind of value.
fn field_error(message: &str) -> (e: AuthError)
    ensures
        e is ParseError,
{
    AuthError::ParseError(shape_error(message))
}

/// Reads the field `code`.
fn read_code(v: &serde_json::Value) -> (r: Result<i32, AuthError>)
    ensures
        match r {
            Ok(code) => required_code(json_model(*v)) == Some(code as int),
            Err(e) => required_code(json_model(*v)) is None && e is ParseError,
        },
{
    match value_member(v, "code") {
        Some(found) => match value_as_i64(found) {
            Some(n) => {
                if -2147483648 <= n && n <= 2147483647 {
                    Ok(n as i32)
                } else {
                    Err(field_error("invalid value: `code` does not fit in 32 bits"))
                }
            },
            None => Err(field_error("invalid type: `code` is not an integer")),
        },
        None => Err(field_error("missing field `code`")),
    }
}

/// Reads the field `msg`.
fn read_message(v: &serde_json::Value) -> (r: Result<String, AuthError>)
    ensures
        match r {
            Ok(s) => required_text(json_model(*v), "msg"@) == Some(s@),
            Err(e) => required_text(json_model(*v), "msg"@) is None && e is ParseError,
        },
{
    match value_member(v, "msg") {
        Some(found) => match value_as_str(found) {
            Some(s) => Ok(String::from_str(s)),
            None => Err(field_error("invalid type: `msg` is not a string")),
        },
        None => Err(field_error("missing field `msg`")),
    }
}

/// Reads an optional field that holds a string.
fn read_optional_text(v: &serde_json::Value, key: &str) -> (r: Result<Option<String>, AuthError>)
    ensures
        match r {
            Ok(Some(s)) => optional_text(json_model(*v), key@) == Some(Some(s@)),
            Ok(None) => optional_text(json_model(*v), key@) == Some(None::<Seq<char>>),
            Err(e) => optional_text(json_model(*v), key@) is None && e is ParseError,
        },
{
    match value_member(v, key) {
        Some(found) => {
            if value_is_null(found) {
                Ok(None)
            } else {
                match value_as_str(found) {
                    Some(s) => Ok(Some(String::from_str(s))),
                    None => Err(field_error("invalid type: expected a string or null")),
                }
            }
        },
        None => Ok(None),
    }
}

/// Reads an optional field that holds any JSON value.
fn read_optional_json(v: &serde_json::Value, key: &str) -> (r: Option<serde_json::Value>)
    ensures
        (match r {
            Some(found) => Some(json_model(found)),
            None => None,
        }) == optional_json(json_model(*v), key@),
{
    match value_member(v, key) {
        Some(found) => {
            if value_is_null(found) {
                None
            } else {
                Some(value_clone(found))
            }
        },
        None => None,
    }
}

impl SupabaseHTTPError {
    /// The payload as a JSON value, in its wire form.
    pub fn to_value(&self) -> (v: serde_json::Value)
        ensures
            json_model(v) == encode(self@),
    {
        let mut entries = entries_new();
        let _ = entries_insert(
            &mut entries,
            String::from_str("code"),
            integer_value(self.code as i64),
        );
        match &self.error_code {
            Some(error_code) => {
                let _ = entries_insert(
                    &mut entries,
                    String::from_str("error_code"),
                    text_value(error_code.clone()),
                );
            },
            None => {},
        }
        let _ = entries_insert(
            &mut entries,
            String::from_str("msg"),
            text_value(self.message.clone()),
        );
        match &self.internal_error {
            Some(internal_error) => {
                let _ = entries_insert(
                    &mut entries,
                    String::from_str("internal_error"),
                    value_clone(internal_error),
                );
            },
            None => {},
        }
        match &self.internal_message {
            Some(internal_message) => {
                let _ = entries_insert(
                    &mut entries,
                    String::from_str("internal_message"),
                    value_clone(internal_message),
                );
            },
            None => {},
        }
        match &self.error_id {
            Some(error_id) => {
                let _ = entries_insert(
                    &mut entries,
                    String::from_str("error_id"),
                    text_value(error_id.clone()),
                );
            },
            None => {},
        }
        proof {
            lemma_key_lengths();
            assert(json_entries(entries) =~= encode(self@)->Object_0);
        }
        object_value(entries)
    }

    /// Reads a payload from a JSON value in the wire form.
    pub fn from_value(v: &serde_json::Value) -> (r: Result<SupabaseHTTPError, AuthError>)
        ensures
            reads_as(json_model(*v), r),
    {
        let code = match read_code(v) {
            Ok(code) => code,
            Err(e) => {
                return Err(e);
            },
        };
        let message = match read_message(v) {
            Ok(message) => message,
            Err(e) => {
                return Err(e);
            },
        };
        let error_code = match read_optional_text(v, "error_code") {
            Ok(error_code) => error_code,
            Err(e) => {
                return Err(e);
            },
        };
        let error_id = match read_optional_text(v, "error_id") {
            Ok(error_id) => error_id,
            Err(e) => {
                return Err(e);
            },
        };
        let internal_error = read_optional_json(v, "internal_error");
        let internal_message = read_optional_json(v, "internal_message");
        Ok(
            SupabaseHTTPError {
                code,
                error_code,
                message,
                internal_error,
                internal_message,
                error_id,
            },
        )
    }

    /// The payload as JSON text: the compact text of its wire form.
    pub fn to_json(&self) -> (r: String)
        ensures
            r@ == json_text(encode(self@)),
    {
        let v = self.to_value();
        value_text(&v)
    }

    /// Reads a payload from JSON text. A text that is no JSON value, and a
    /// value that stands for no payload, give a parse error.
    pub fn from_json(text: &str) -> (r: Result<SupabaseHTTPError, AuthError>)
        ensures
            match json_parse(text@) {
                Some(m) => reads_as(m, r),
                None => r matches Err(AuthError::ParseError(_)),
            },
    {
        match parse_value(text) {
            Ok(v) => SupabaseHTTPError::from_value(&v),
            Err(e) => Err(AuthError::from(e)),
        }
    }
}

} // verus!
