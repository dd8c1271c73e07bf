use vstd::prelude::*;

use crate::doc::{DocEntry, DocValue};
use crate::error::Error;

verus! {

/// Declares serde_json's value tree for use in signatures; the engine
/// never looks inside it except through the accessors below.
#[verifier::external_type_specification]
#[verifier::external_body]
pub struct ExJsonValue(serde_json::Value);

/// Declares serde_json's object map for use in signatures.
#[verifier::external_type_specification]
#[verifier::external_body]
#[verifier::reject_recursive_types(K)]
#[verifier::reject_recursive_types(V)]
pub struct ExJsonMap<K, V>(serde_json::Map<K, V>);

// The accessors below carry no contract: what they return depends on the
// opaque value alone, and the conversion right after them turns everything
// into the engine's own document tree.
pub assume_specification[ serde_json::Value::is_null ](v: &serde_json::Value) -> (r: bool);

pub assume_specification[ serde_json::Value::as_bool ](v: &serde_json::Value) -> (r: Option<bool>);

pub assume_specification[ serde_json::Value::as_i64 ](v: &serde_json::Value) -> (r: Option<i64>);

pub assume_specification[ serde_json::Value::as_str ](v: &serde_json::Value) -> (r: Option<&str>);

pub assume_specification[ serde_json::Value::as_array ](v: &serde_json::Value) -> (r: Option<
    &Vec<serde_json::Value>,
>);

pub assume_specification[ serde_json::Value::as_object ](v: &serde_json::Value) -> (r: Option<
    &serde_json::Map<String, serde_json::Value>,
>);

/// Relies on serde_json::from_str: parses JSON text into serde_json's
/// generic value tree; a parse failure becomes its message.
#[verifier::external_body]
fn json_value_from_str(raw_content: &str) -> Result<serde_json::Value, String> {
    match serde_json::from_str::<serde_json::Value>(raw_content) {
        Ok(value) => Ok(value),
        Err(parse_error) => Err(parse_error.to_string()),
    }
}

/// Relies on serde_json::Map::iter: hands the object's entries out as
/// owned key/value pairs, in the object's own order.
#[verifier::external_body]
fn json_map_entries(object: &serde_json::Map<String, serde_json::Value>) -> Vec<
    (String, serde_json::Value),
> {
    object.iter().map(|(key, value)| (key.clone(), value.clone())).collect()
}

/// Parses JSON text into the engine's own document tree.
pub fn doc_from_json_str(raw_content: &str) -> Result<DocValue, Error> {
    match json_value_from_str(raw_content) {
        Ok(value) => doc_from_json_value(&value, crate::doc::yaml::DOC_MAX_DEPTH),
        Err(message) => Err(Error::FailureToParseContent(message)),
    }
}

/// Converts one serde_json value into the engine's document tree.
/// Floating-point numbers are not part of the document model and are
/// rejected.
fn doc_from_json_value(value: &serde_json::Value, depth: u32) -> (r: Result<DocValue, Error>)
    decreases depth,
{
    if depth == 0 {
        return Err(Error::FailureToParseContent(String::from_str(
            "document nests too deeply",
        )));
    }
    if value.is_null() {
        return Ok(DocValue::Null);
    }
    if let Some(flag) = value.as_bool() {
        return Ok(DocValue::Bool(flag));
    }
    if let Some(number) = value.as_i64() {
        return Ok(DocValue::Int(number));
    }
    if let Some(text) = value.as_str() {
        return Ok(DocValue::Str(text.to_owned()));
    }
    if let Some(array) = value.as_array() {
        let mut items: Vec<DocValue> = Vec::new();
        let n = array.len();
        let mut i: usize = 0;
        while i < n
            invariant
                0 <= i <= n,
                n == array@.len(),
                depth > 0,
            decreases n - i,
        {
            match doc_from_json_value(&array[i], depth - 1) {
                Ok(item) => items.push(item),
                Err(conversion_error) => {
                    return Err(conversion_error);
                },
            }
            i = i + 1;
        }
        return Ok(DocValue::List(items));
    }
    if let Some(object) = value.as_object() {
        let raw_entries = json_map_entries(object);
        let mut entries: Vec<DocEntry> = Vec::new();
        let n = raw_entries.len();
        let mut i: usize = 0;
        while i < n
            invariant
                0 <= i <= n,
                n == raw_entries@.len(),
                depth > 0,
            decreases n - i,
        {
            match doc_from_json_value(&raw_entries[i].1, depth - 1) {
                Ok(converted) => {
                    let key = raw_entries[i].0.clone();
                    entries.push(DocEntry { key, value: converted });
                },
                Err(conversion_error) => {
                    return Err(conversion_error);
                },
            }
            i = i + 1;
        }
        return Ok(DocValue::Object(entries));
    }
    Err(Error::FailureToParseContent(String::from_str(
        "a scalar is neither null, boolean, integer nor string",
    )))
}

} // verus!
