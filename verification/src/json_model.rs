//! JSON documents as plain values: what `serde_json` parses, held in a type
//! of the library so that the reading logic can be verified.
use crate::error::{ToolkitError, ToolkitResult};
use crate::json::json_error_message;
use crate::text::{copy_string, str_eq};
use vstd::prelude::*;

verus! {

/// A JSON value. Numbers keep their decimal text; an object keeps its
/// members in the order `serde_json` holds them (sorted by key, each key
/// once).
#[derive(Debug, PartialEq, Eq)]
pub enum JsonModel {
    Null,
    Bool(bool),
    Number(String),
    String(String),
    Array(Vec<JsonModel>),
    Object(Vec<(String, JsonModel)>),
}

/// The value `serde_json::from_str::<serde_json::Value>` parses from a
/// text, or `None` when the text is not JSON.
pub uninterp spec fn json_value_of(text: Seq<char>) -> Option<serde_json::Value>;

/// The plain model of a `serde_json::Value`: the same variant, with the
/// same members in the same order.
pub uninterp spec fn json_model_from_value(value: serde_json::Value) -> JsonModel;

/// The model of a JSON text, or `None` when the text is not JSON.
pub open spec fn json_model_of(text: Seq<char>) -> Option<JsonModel> {
    match json_value_of(text) {
        Some(v) => Some(json_model_from_value(v)),
        None => None,
    }
}

/// `serde_json::from_str::<serde_json::Value>`: the name `json_value_of`
/// of the text; it fails exactly when that is `None`.
#[verifier::external_body]
fn parse_json_value(text: &str) -> (r: Result<serde_json::Value, serde_json::Error>)
    ensures
        r is Ok <==> json_value_of(text@) is Some,
        r matches Ok(v) ==> json_value_of(text@) == Some(v),
{
    serde_json::from_str::<serde_json::Value>(text)
}

/// A `serde_json::Value` moved into the library's model, variant by
/// variant (a number by its `Display` text).
#[verifier::external_body]
fn model_of_value(value: serde_json::Value) -> (r: JsonModel)
    ensures
        r == json_model_from_value(value),
{
    match value {
        serde_json::Value::Null => JsonModel::Null,
        serde_json::Value::Bool(b) => JsonModel::Bool(b),
        serde_json::Value::Number(n) => JsonModel::Number(n.to_string()),
        serde_json::Value::String(s) => JsonModel::String(s),
        serde_json::Value::Array(a) => JsonModel::Array(a.into_iter().map(model_of_value).collect()),
        serde_json::Value::Object(m) => JsonModel::Object(m.into_iter().map(|(k, v)| (k, model_of_value(v))).collect()),
    }
}

/// Parses a JSON text; a text that is not JSON is an `IoMessage` with
/// `serde_json`'s description.
pub fn parse_json(text: &str) -> (r: ToolkitResult<JsonModel>)
    ensures
        r is Ok <==> json_model_of(text@) is Some,
        r matches Ok(m) ==> json_model_of(text@) == Some(m),
        r matches Err(e) ==> e is IoMessage,
{
    match parse_json_value(text) {
        Ok(v) => Ok(model_of_value(v)),
        Err(error) => Err(ToolkitError::IoMessage(json_error_message(&error))),
    }
}

// ---------------------------------------------------------------------------
// Reading values
// ---------------------------------------------------------------------------

/// The value of the first member called `key`.
pub open spec fn member_of(entries: Seq<(String, JsonModel)>, key: Seq<char>) -> Option<JsonModel>
    decreases entries.len(),
{
    if entries.len() == 0 {
        None
    } else if entries[0].0@ == key {
        Some(entries[0].1)
    } else {
        member_of(entries.drop_first(), key)
    }
}

/// `value.get(key)`: the member `key` of an object; nothing for any other
/// value.
pub open spec fn field_of(value: JsonModel, key: Seq<char>) -> Option<JsonModel> {
    match value {
        JsonModel::Object(entries) => member_of(entries@, key),
        _ => None,
    }
}

/// An optional reference, dereferenced.
pub open spec fn deref_opt(value: Option<&JsonModel>) -> Option<JsonModel> {
    match value {
        Some(v) => Some(*v),
        None => None,
    }
}

/// `value.get(key)` on an optional value.
pub open spec fn field_in(value: Option<JsonModel>, key: Seq<char>) -> Option<JsonModel> {
    match value {
        Some(v) => field_of(v, key),
        None => None,
    }
}

/// `as_str`.
pub open spec fn str_of(value: Option<JsonModel>) -> Option<Seq<char>> {
    match value {
        Some(JsonModel::String(s)) => Some(s@),
        _ => None,
    }
}

/// `as_bool`.
pub open spec fn bool_of(value: Option<JsonModel>) -> Option<bool> {
    match value {
        Some(JsonModel::Bool(b)) => Some(b),
        _ => None,
    }
}

/// `as_array`: the items of an array.
pub open spec fn items_of(value: Option<JsonModel>) -> Option<Seq<JsonModel>> {
    match value {
        Some(JsonModel::Array(items)) => Some(items@),
        _ => None,
    }
}

/// The value itself when it is an object.
pub open spec fn object_of(value: Option<JsonModel>) -> Option<JsonModel> {
    match value {
        Some(JsonModel::Object(e)) => value,
        _ => None,
    }
}

/// The member `key` of a value, when the value is an object.
pub fn json_field<'a>(value: &'a JsonModel, key: &str) -> (r: Option<&'a JsonModel>)
    ensures
        match r {
            Some(v) => field_of(*value, key@) == Some(*v),
            None => field_of(*value, key@) is None,
        },
{
    match value {
        JsonModel::Object(entries) => {
            let ghost es = entries@;
            let mut i: usize = 0;
            assert(es.skip(0) =~= es);
            while i < entries.len()
                invariant
                    es == entries@,
                    field_of(*value, key@) == member_of(es, key@),
                    i <= entries.len(),
                    member_of(es, key@) == member_of(es.skip(i as int), key@),
                decreases entries.len() - i,
            {
                assert(es.skip(i as int)[0] == es[i as int]);
                if str_eq(entries[i].0.as_str(), key) {
                    return Some(&entries[i].1);
                }
                assert(es.skip(i as int).drop_first() =~= es.skip(i + 1));
                i = i + 1;
            }
            None
        },
        _ => None,
    }
}

/// The member `key` of an optional value.
pub fn json_field_in<'a>(value: Option<&'a JsonModel>, key: &str) -> (r: Option<&'a JsonModel>)
    ensures
        match r {
            Some(v) => field_in(deref_opt(value), key@) == Some(*v),
            None => field_in(deref_opt(value), key@) is None,
        },
{
    match value {
        Some(v) => json_field(v, key),
        None => None,
    }
}

/// `as_str`, copied.
pub fn json_str(value: Option<&JsonModel>) -> (r: Option<String>)
    ensures
        crate::text::opt_view(r) == str_of(deref_opt(value)),
{
    match value {
        Some(JsonModel::String(s)) => Some(copy_string(s)),
        _ => None,
    }
}

/// `as_bool`.
pub fn json_bool(value: Option<&JsonModel>) -> (r: Option<bool>)
    ensures
        r == bool_of(deref_opt(value)),
{
    match value {
        Some(JsonModel::Bool(b)) => Some(*b),
        _ => None,
    }
}

/// `as_array`.
pub fn json_items(value: Option<&JsonModel>) -> (r: Option<&Vec<JsonModel>>)
    ensures
        match r {
            Some(items) => items_of(deref_opt(value)) == Some(items@),
            None => items_of(deref_opt(value)) is None,
        },
{
    match value {
        Some(JsonModel::Array(items)) => Some(items),
        _ => None,
    }
}

/// The value itself when it is an object.
pub fn json_object(value: Option<&JsonModel>) -> (r: Option<&JsonModel>)
    ensures
        match r {
            Some(v) => object_of(deref_opt(value)) == Some(*v),
            None => object_of(deref_opt(value)) is None,
        },
{
    match value {
        Some(v) => match v {
            JsonModel::Object(_) => Some(v),
            _ => None,
        },
        None => None,
    }
}

} // verus!
