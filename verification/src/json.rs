//! JSON documents, as `serde_json` holds, writes and reads them.
//!
//! A document is a `serde_json::Value`. What one holds is spoken of through
//! four names: its kind, and the text, the items or the fields of a value
//! of the kind that has them.

use vstd::prelude::*;
use crate::error::WasmError;

verus! {

/// A JSON document of `serde_json`.
#[verifier::external_type_specification]
#[verifier::external_body]
pub struct ExJsonValue(serde_json::Value);

/// The error of `serde_json`.
#[verifier::external_type_specification]
#[verifier::external_body]
pub struct ExJsonError(serde_json::Error);

/// The six kinds of JSON values.
#[derive(Debug, Clone, Copy, PartialEq, Eq, Structural)]
pub enum Kind {
    Null,
    Bool,
    Number,
    Text,
    List,
    Record,
}

/// The kind of a value.
pub uninterp spec fn json_kind(v: serde_json::Value) -> Kind;

/// The characters of a value of kind `Text`.
pub uninterp spec fn json_text(v: serde_json::Value) -> Seq<char>;

/// The items of a value of kind `List`, in order.
pub uninterp spec fn json_items(v: serde_json::Value) -> Seq<serde_json::Value>;

/// The fields of a value of kind `Record`, by key.
pub uninterp spec fn json_fields(v: serde_json::Value) -> Map<Seq<char>, serde_json::Value>;

/// The bytes that `serde_json` writes for a value, or `None` where it
/// fails to write the value. They are a matter of the value itself: how a
/// record orders its fields shows in the bytes and not in [`json_fields`].
pub uninterp spec fn json_encoding(v: serde_json::Value) -> Option<Seq<u8>>;

/// The value that `serde_json` reads from bytes, or `None` where it
/// rejects them.
pub uninterp spec fn json_parsing(bytes: Seq<u8>) -> Option<serde_json::Value>;

/// `serde_json::Value::Null`.
#[verifier::external_body]
pub(crate) fn null_value() -> (v: serde_json::Value)
    ensures
        json_kind(v) == Kind::Null,
{
    serde_json::Value::Null
}

/// `serde_json::Value::String` of a copy of `s`.
#[verifier::external_body]
pub(crate) fn text_value(s: &str) -> (v: serde_json::Value)
    ensures
        json_kind(v) == Kind::Text,
        json_text(v) == s@,
{
    serde_json::Value::String(s.to_string())
}

/// `serde_json::Value::Array` of `items`.
#[verifier::external_body]
pub(crate) fn list_value(items: Vec<serde_json::Value>) -> (v: serde_json::Value)
    ensures
        json_kind(v) == Kind::List,
        json_items(v) == items@,
{
    serde_json::Value::Array(items)
}

/// The fields of a record without fields.
pub open spec fn no_fields() -> Map<Seq<char>, serde_json::Value> {
    Map::empty()
}

/// `serde_json::Value::Object` of an empty `serde_json::Map`.
#[verifier::external_body]
pub(crate) fn record_value() -> (v: serde_json::Value)
    ensures
        json_kind(v) == Kind::Record,
        json_fields(v) == no_fields(),
{
    serde_json::Value::Object(serde_json::Map::new())
}

/// `serde_json::Map::insert` on the map of a record: sets the field `key`
/// to `value` and leaves the other fields as they are.
#[verifier::external_body]
pub(crate) fn set_field(record: &mut serde_json::Value, key: &str, value: serde_json::Value)
    requires
        json_kind(*old(record)) == Kind::Record,
    ensures
        json_kind(*final(record)) == Kind::Record,
        json_fields(*final(record)) == json_fields(*old(record)).insert(key@, value),
{
    record.as_object_mut().unwrap().insert(key.to_string(), value);
}

/// The variant of a `serde_json::Value`.
#[verifier::external_body]
pub(crate) fn kind(v: &serde_json::Value) -> (k: Kind)
    ensures
        k == json_kind(*v),
{
    match v {
        serde_json::Value::Null => Kind::Null,
        serde_json::Value::Bool(_) => Kind::Bool,
        serde_json::Value::Number(_) => Kind::Number,
        serde_json::Value::String(_) => Kind::Text,
        serde_json::Value::Array(_) => Kind::List,
        serde_json::Value::Object(_) => Kind::Record,
    }
}

/// `serde_json::Value::as_str` of a text.
#[verifier::external_body]
pub(crate) fn text(v: &serde_json::Value) -> (s: &str)
    requires
        json_kind(*v) == Kind::Text,
    ensures
        s@ == json_text(*v),
{
    v.as_str().unwrap()
}

/// `serde_json::Value::as_array` of a list.
#[verifier::external_body]
pub(crate) fn items(v: &serde_json::Value) -> (list: &Vec<serde_json::Value>)
    requires
        json_kind(*v) == Kind::List,
    ensures
        list@ == json_items(*v),
{
    v.as_array().unwrap()
}

/// `serde_json::Value::get` on a record: the field `key`, if the record
/// has it.
#[verifier::external_body]
pub(crate) fn field<'a>(v: &'a serde_json::Value, key: &str) -> (r: Option<&'a serde_json::Value>)
    requires
        json_kind(*v) == Kind::Record,
    ensures
        match r {
            Some(x) => json_fields(*v).dom().contains(key@) && *x == json_fields(*v)[key@],
            None => !json_fields(*v).dom().contains(key@),
        },
{
    v.get(key)
}

/// `serde_json::to_vec`: the bytes of the JSON text of `v`. Whether it
/// succeeds and what it writes depend on the value alone: on success the
/// bytes are `json_encoding(v)`, and it fails exactly where that is `None`.
#[verifier::external_body]
fn to_vec(v: &serde_json::Value) -> (r: Result<Vec<u8>, serde_json::Error>)
    ensures
        match r {
            Ok(bytes) => json_encoding(*v) == Some(bytes@),
            Err(_) => json_encoding(*v) is None,
        },
{
    serde_json::to_vec(v)
}

/// `serde_json::from_slice`: the value that the JSON text in `bytes`
/// writes, which depends on the bytes alone; an error exactly where
/// `json_parsing` is `None`.
#[verifier::external_body]
fn from_slice(bytes: &[u8]) -> (r: Result<serde_json::Value, serde_json::Error>)
    ensures
        match r {
            Ok(v) => json_parsing(bytes@) == Some(v),
            Err(_) => json_parsing(bytes@) is None,
        },
{
    serde_json::from_slice(bytes)
}

/// The message of a `serde_json::Error`. Nothing is claimed of the text.
#[verifier::external_body]
fn report(e: &serde_json::Error) -> String {
    format!("{}", e)
}

/// Writes a document as JSON text. Fails, with the writer's message,
/// exactly where `serde_json` fails to write the value.
pub fn encode(v: &serde_json::Value) -> (r: Result<Vec<u8>, WasmError>)
    ensures
        match r {
            Ok(bytes) => json_encoding(*v) == Some(bytes@),
            Err(e) => json_encoding(*v) is None && e is MalformedConfig,
        },
{
    match to_vec(v) {
        Ok(bytes) => Ok(bytes),
        Err(e) => Err(WasmError::MalformedConfig(report(&e))),
    }
}

/// Reads a document from JSON text. Fails, with the parser's message,
/// exactly where `serde_json` rejects the bytes.
pub fn parse(bytes: &[u8]) -> (r: Result<serde_json::Value, WasmError>)
    ensures
        match r {
            Ok(v) => json_parsing(bytes@) == Some(v),
            Err(e) => json_parsing(bytes@) is None && e is MalformedConfig,
        },
{
    match from_slice(bytes) {
        Ok(v) => Ok(v),
        Err(e) => Err(WasmError::MalformedConfig(report(&e))),
    }
}

} // verus!
