//! The JSON values that messages carry, as `serde_json` holds them.
//!
//! Everything in this file is trusted: the types are declared opaque, and each
//! function states of one `serde_json` item what its source shows. The message
//! protocol in `ipc` is proved against these statements.

use serde_json::Error as JsonError;
use vstd::prelude::*;

verus! {

/// `serde_json::Value`, opaque to the verifier.
#[verifier::external_type_specification]
#[verifier::external_body]
pub struct ExValue(serde_json::Value);

/// `serde_json::Error`, opaque to the verifier.
#[verifier::external_type_specification]
#[verifier::external_body]
pub struct ExJsonError(JsonError);

/// `serde_json::Map`, opaque to the verifier.
#[verifier::external_type_specification]
#[verifier::external_body]
#[verifier::reject_recursive_types(K)]
#[verifier::reject_recursive_types(V)]
pub struct ExJsonMap<K, V>(serde_json::Map<K, V>);

/// A JSON object's entries as `serde_json` holds them.
pub type JsonMap = serde_json::Map<String, serde_json::Value>;

/// The members of a JSON object, by key; `None` for a value that is no object.
pub uninterp spec fn json_members(v: serde_json::Value) -> Option<Map<Seq<char>, serde_json::Value>>;

/// The text of a JSON string; `None` for a value that is no string.
pub uninterp spec fn json_string(v: serde_json::Value) -> Option<Seq<char>>;

/// Whether a value is JSON `null`.
pub uninterp spec fn json_is_null(v: serde_json::Value) -> bool;

/// The entries that a `serde_json::Map` holds, by key.
pub uninterp spec fn map_entries(m: JsonMap) -> Map<Seq<char>, serde_json::Value>;

/// What `serde_json::from_str` makes of a text: the value, or `None` where it
/// reports an error.
pub uninterp spec fn json_parsed(text: Seq<char>) -> Option<serde_json::Value>;

/// What `serde_json::to_string` prints for a value, or `None` where it reports
/// an error.
pub uninterp spec fn json_text(v: serde_json::Value) -> Option<Seq<char>>;

/// A JSON object without members.
pub open spec fn no_entries() -> Map<Seq<char>, serde_json::Value> {
    Map::empty()
}

/// What looking a key up in a value gives: the member of that name where the
/// value is an object that has one.
pub open spec fn json_member(v: serde_json::Value, key: Seq<char>) -> Option<serde_json::Value> {
    match json_members(v) {
        Some(members) => if members.dom().contains(key) {
            Some(members[key])
        } else {
            None
        },
        None => None,
    }
}

/// `serde_json::from_str::<Value>`: parses a text. The result is a function of
/// the text alone; nothing is claimed about which texts parse.
#[verifier::external_body]
pub(crate) fn parse_value(text: &str) -> (r: Result<serde_json::Value, JsonError>)
    ensures
        match r {
            Ok(v) => json_parsed(text@) == Some(v),
            Err(_) => json_parsed(text@) is None,
        },
{
    serde_json::from_str::<serde_json::Value>(text)
}

/// `serde_json::to_string` on a `Value`: prints a value in compact form. The
/// result is a function of the value alone; success is not claimed.
#[verifier::external_body]
pub(crate) fn print_value(v: &serde_json::Value) -> (r: Result<String, JsonError>)
    ensures
        match r {
            Ok(s) => json_text(*v) == Some(s@),
            Err(_) => json_text(*v) is None,
        },
{
    serde_json::to_string(v)
}

/// `Value::get` with a string key: the member of that name of an object, and
/// `None` for a missing key or a value that is no object.
#[verifier::external_body]
pub(crate) fn value_get<'a>(v: &'a serde_json::Value, key: &str) -> (r: Option<&'a serde_json::Value>)
    ensures
        match r {
            Some(member) => json_member(*v, key@) == Some(*member),
            None => json_member(*v, key@) is None,
        },
{
    v.get(key)
}

/// `Value::as_str`: the text of a string value, `None` for any other value.
#[verifier::external_body]
pub(crate) fn value_as_str<'a>(v: &'a serde_json::Value) -> (r: Option<&'a str>)
    ensures
        match r {
            Some(s) => json_string(*v) == Some(s@),
            None => json_string(*v) is None,
        },
{
    v.as_str()
}

/// `Value::is_null`.
#[verifier::external_body]
pub(crate) fn value_is_null(v: &serde_json::Value) -> (r: bool)
    ensures
        r == json_is_null(*v),
{
    v.is_null()
}

/// `Value::is_object`.
#[verifier::external_body]
pub(crate) fn value_is_object(v: &serde_json::Value) -> (r: bool)
    ensures
        r == (json_members(*v) is Some),
{
    v.is_object()
}

/// `Value::Null`: the null value, which is neither a string nor an object.
#[verifier::external_body]
pub(crate) fn null_value() -> (r: serde_json::Value)
    ensures
        json_is_null(r),
        json_string(r) is None,
        json_members(r) is None,
{
    serde_json::Value::Null
}

/// `Value::String`: a string value with the given text, which is neither null
/// nor an object.
#[verifier::external_body]
pub(crate) fn string_value(text: String) -> (r: serde_json::Value)
    ensures
        json_string(r) == Some(text@),
        !json_is_null(r),
        json_members(r) is None,
{
    serde_json::Value::String(text)
}

/// `Value::Object`: an object with the entries of the map, which is neither
/// null nor a string.
#[verifier::external_body]
pub(crate) fn object_value(entries: JsonMap) -> (r: serde_json::Value)
    ensures
        json_members(r) == Some(map_entries(entries)),
        !json_is_null(r),
        json_string(r) is None,
{
    serde_json::Value::Object(entries)
}

/// `Map::new`: a map without entries.
#[verifier::external_body]
pub(crate) fn new_map() -> (r: JsonMap)
    ensures
        map_entries(r) == no_entries(),
{
    serde_json::Map::new()
}

/// `Map::insert`: sets the entry of the key, replacing an earlier one.
#[verifier::external_body]
pub(crate) fn map_insert(
    entries: &mut JsonMap,
    key: String,
    value: serde_json::Value,
)
    ensures
        map_entries(*final(entries)) == map_entries(*old(entries)).insert(key@, value),
{
    entries.insert(key, value);
}

/// `Clone` for `Value`: a copy equal to the value copied.
pub assume_specification[ <serde_json::Value as Clone>::clone ](v: &serde_json::Value) -> (r:
    serde_json::Value)
    ensures
        r == *v,
;

/// `Display` for `serde_json::Error`: the words of the error. Nothing is
/// claimed of them: for an error with an input or output cause they are the
/// system's.
#[verifier::external_body]
pub(crate) fn error_text(e: &JsonError) -> String {
    e.to_string()
}

} // verus!
