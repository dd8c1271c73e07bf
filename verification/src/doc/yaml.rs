use vstd::prelude::*;

use crate::doc::{DocEntry, DocValue};
use crate::error::Error;

verus! {

/// Declares serde_yaml's value tree for use in signatures; the engine
/// never looks inside it except through the accessors below.
#[verifier::external_type_specification]
#[verifier::external_body]
pub struct ExYamlValue(serde_yaml::Value);

/// Declares serde_yaml's mapping type for use in signatures.
#[verifier::external_type_specification]
#[verifier::external_body]
pub struct ExYamlMapping(serde_yaml::Mapping);

// The accessors below carry no contract: what they return depends on the
// opaque value alone, and the conversion right after them turns everything
// into the engine's own document tree.
pub assume_specification[ serde_yaml::Value::is_null ](v: &serde_yaml::Value) -> (r: bool);

pub assume_specification[ serde_yaml::Value::as_bool ](v: &serde_yaml::Value) -> (r: Option<bool>);

pub assume_specification[ serde_yaml::Value::as_i64 ](v: &serde_yaml::Value) -> (r: Option<i64>);

pub assume_specification[ serde_yaml::Value::as_str ](v: &serde_yaml::Value) -> (r: Option<&str>);

pub assume_specification[ serde_yaml::Value::as_sequence ](v: &serde_yaml::Value) -> (r: Option<
    &serde_yaml::Sequence,
>);

pub assume_specification[ serde_yaml::Value::as_mapping ](v: &serde_yaml::Value) -> (r: Option<
    &serde_yaml::Mapping,
>);

/// Relies on serde_yaml::from_str: parses YAML text into serde_yaml's
/// generic value tree; a parse failure becomes its message.
#[verifier::external_body]
fn yaml_value_from_str(raw_content: &str) -> Result<serde_yaml::Value, String> {
    match serde_yaml::from_str::<serde_yaml::Value>(raw_content) {
        Ok(value) => Ok(value),
        Err(parse_error) => Err(parse_error.to_string()),
    }
}

/// Relies on serde_yaml::Mapping::iter: hands the mapping's entries out as
/// owned key/value pairs, in the mapping's own order.
#[verifier::external_body]
fn yaml_mapping_entries(mapping: &serde_yaml::Mapping) -> Vec<
    (serde_yaml::Value, serde_yaml::Value),
> {
    mapping.iter().map(|(key, value)| (key.clone(), value.clone())).collect()
}

/// How deep a document tree may nest before conversion gives up.
pub const DOC_MAX_DEPTH: u32 = 128;

/// Parses YAML text into the engine's own document tree.
pub fn doc_from_yaml_str(raw_content: &str) -> Result<DocValue, Error> {
    match yaml_value_from_str(raw_content) {
        Ok(value) => doc_from_yaml_value(&value, DOC_MAX_DEPTH),
        Err(message) => Err(Error::FailureToParseContent(message)),
    }
}

/// Converts one serde_yaml value into the engine's document tree. Mapping
/// keys must be strings; YAML tags and floating-point scalars are not part
/// of the document model and are rejected.
fn doc_from_yaml_value(value: &serde_yaml::Value, depth: u32) -> (r: Result<DocValue, Error>)
    decreases depth,
{
    if depth == 0 {
        return Err(Error::FailureToParseContent(String::from_str(
            "document nests too deeply",
        )));
    }
    if value.is_null() {
        return Ok(DocValue::Null);
    }
    if let Some(flag) = value.as_bool() {
        return Ok(DocValue::Bool(flag));
    }
    if let Some(number) = value.as_i64() {
        return Ok(DocValue::Int(number));
    }
    if let Some(text) = value.as_str() {
        return Ok(DocValue::Str(text.to_owned()));
    }
    if let Some(sequence) = value.as_sequence() {
        let mut items: Vec<DocValue> = Vec::new();
        let n = sequence.len();
        let mut i: usize = 0;
        while i < n
            invariant
                0 <= i <= n,
                n == sequence@.len(),
                depth > 0,
            decreases n - i,
        {
            match doc_from_yaml_value(&sequence[i], depth - 1) {
                Ok(item) => items.push(item),
                Err(conversion_error) => {
                    return Err(conversion_error);
                },
            }
            i = i + 1;
        }
        return Ok(DocValue::List(items));
    }
    if let Some(mapping) = value.as_mapping() {
        let raw_entries = yaml_mapping_entries(mapping);
        let mut entries: Vec<DocEntry> = Vec::new();
        let n = raw_entries.len();
        let mut i: usize = 0;
        while i < n
            invariant
                0 <= i <= n,
                n == raw_entries@.len(),
                depth > 0,
            decreases n - i,
        {
            let key = match raw_entries[i].0.as_str() {
                Some(text) => text.to_owned(),
                None => {
                    return Err(Error::FailureToParseContent(String::from_str(
                        "a mapping key is not a string",
                    )));
                },
            };
            match doc_from_yaml_value(&raw_entries[i].1, depth - 1) {
                Ok(converted) => entries.push(DocEntry { key, value: converted }),
                Err(conversion_error) => {
                    return Err(conversion_error);
                },
            }
            i = i + 1;
        }
        return Ok(DocValue::Object(entries));
    }
    Err(Error::FailureToParseContent(String::from_str(
        "a scalar is neither null, boolean, integer nor string",
    )))
}

} // verus!
