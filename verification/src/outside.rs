//! Trusted declarations for the outside crates the library leans on:
//! JSON parsing and field access (serde_json), base64 encoding, the current
//! time (chrono), and fresh identifiers (uuid). Each item's contract states
//! only what the crate's own source or documentation shows. The JSON
//! results are deterministic functions of their arguments, so each carries
//! a name that the callers' contracts are stated over.

use vstd::prelude::*;

verus! {

#[verifier::external_type_specification]
#[verifier::external_body]
pub struct ExValue(serde_json::Value);

/// The JSON tree a text parses to, when it parses; a function of the text
/// alone.
pub uninterp spec fn json_value_of(s: Seq<char>) -> Option<serde_json::Value>;

/// Relies on serde_json::from_str::<Value>: `Some` exactly when the text
/// parses as JSON, and which tree comes back depends on the text alone.
#[verifier::external_body]
pub(crate) fn parse_json(s: &str) -> (r: Option<serde_json::Value>)
    ensures
        match r {
            Some(v) => json_value_of(s@) == Some(v),
            None => json_value_of(s@) is None,
        },
{
    serde_json::from_str(s).ok()
}

/// The entry a JSON value holds under a key: `Some` for a key of an
/// object, `None` for a missing key or a non-object.
pub uninterp spec fn json_get(v: serde_json::Value, key: Seq<char>) -> Option<serde_json::Value>;

/// Relies on serde_json::Value::get: looks a key up in a JSON object,
/// `None` for a missing key or a non-object; a function of the value and
/// the key alone.
#[verifier::external_body]
pub(crate) fn value_get<'a>(v: &'a serde_json::Value, key: &str) -> (r: Option<
    &'a serde_json::Value,
>)
    ensures
        match r {
            Some(x) => json_get(*v, key@) == Some(*x),
            None => json_get(*v, key@) is None,
        },
{
    v.get(key)
}

/// The characters of a JSON string value; `None` for any other value.
pub uninterp spec fn json_str_of(v: serde_json::Value) -> Option<Seq<char>>;

/// Relies on serde_json::Value::as_str: the borrowed string when the value
/// is a JSON string, `None` otherwise.
#[verifier::external_body]
pub(crate) fn value_as_str<'a>(v: &'a serde_json::Value) -> (r: Option<&'a str>)
    ensures
        match r {
            Some(s) => json_str_of(*v) == Some(s@),
            None => json_str_of(*v) is None,
        },
{
    v.as_str()
}

/// The elements of a JSON array value; `None` for any other value.
pub uninterp spec fn json_array_of(v: serde_json::Value) -> Option<Seq<serde_json::Value>>;

/// Relies on serde_json::Value::as_array: the element vector when the
/// value is a JSON array, `None` otherwise.
#[verifier::external_body]
pub(crate) fn value_as_array<'a>(v: &'a serde_json::Value) -> (r: Option<
    &'a Vec<serde_json::Value>,
>)
    ensures
        match r {
            Some(a) => json_array_of(*v) == Some(a@),
            None => json_array_of(*v) is None,
        },
{
    v.as_array()
}

/// Whether a JSON value is `null`.
pub uninterp spec fn json_is_null(v: serde_json::Value) -> bool;

/// Relies on serde_json::Value::is_null.
#[verifier::external_body]
pub(crate) fn value_is_null(v: &serde_json::Value) -> (r: bool)
    ensures
        r == json_is_null(*v),
{
    v.is_null()
}

/// What base64's standard engine encodes a byte sequence to; a function of
/// the bytes alone.
pub uninterp spec fn base64_std_of(bytes: Seq<u8>) -> Seq<char>;

/// Relies on base64's `STANDARD` engine via `Engine::encode`: the encoding
/// depends on the input bytes alone, and the empty input encodes to the
/// empty string.
#[verifier::external_body]
pub(crate) fn base64_encode(bytes: &Vec<u8>) -> (r: String)
    ensures
        r@ == base64_std_of(bytes@),
        bytes@.len() == 0 ==> r@.len() == 0,
{
    base64::Engine::encode(&base64::engine::general_purpose::STANDARD, bytes)
}

/// Relies on chrono::Utc::now and DateTime::timestamp_millis: the current
/// time as milliseconds since the Unix epoch. Nothing can be promised of
/// the clock's reading.
#[verifier::external_body]
pub(crate) fn now_timestamp_millis() -> i64 {
    chrono::Utc::now().timestamp_millis()
}

/// Relies on uuid::Uuid::new_v4 and its `Display` form: a freshly drawn
/// random identifier. Nothing can be promised of a random value.
#[verifier::external_body]
pub(crate) fn new_session_id() -> String {
    uuid::Uuid::new_v4().to_string()
}

} // verus!
