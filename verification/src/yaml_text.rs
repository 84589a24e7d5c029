use vstd::prelude::*;

use crate::yaml::{YamlMapping, YamlValue, YamlView};

verus! {

/// A YAML document as `serde_yaml` holds it.
#[verifier::external_type_specification]
#[verifier::external_body]
pub struct ExYamlDocument(serde_yaml::Value);

/// The document that `serde_yaml::from_str` reads out of a text, as the
/// library's YAML model, or `None` when the text is not valid YAML.
pub uninterp spec fn parsed_yaml(text: Seq<char>) -> Option<YamlView>;

/// Turns a `serde_yaml` value into the library's model, node for node:
/// text scalars become texts, mappings become mappings with their entries
/// in document order, a tagged node is read as the node it tags (as
/// `serde_yaml` reads it through `as_str` and `as_mapping`), and any other
/// node keeps its YAML text.
#[verifier::external_body]
fn library_value(value: serde_yaml::Value) -> YamlValue {
    match value {
        serde_yaml::Value::String(text) => YamlValue::Text(text),
        serde_yaml::Value::Tagged(tagged) => library_value(tagged.value),
        serde_yaml::Value::Mapping(mapping) => YamlValue::Mapping(YamlMapping {
            entries: mapping.into_iter().map(|(key, value)| (library_value(key), library_value(value))).collect(),
        }),
        other => YamlValue::Other(serde_yaml::to_string(&other).unwrap_or_default()),
    }
}

/// Calls `serde_yaml::from_str` to read a text as one YAML document; its
/// result, in the library's model, is named by `parsed_yaml`, and `None`
/// stands for the error that `serde_yaml` reports.
#[verifier::external_body]
pub(crate) fn parse_yaml(text: &str) -> (r: Option<YamlValue>)
    ensures
        match r {
            Some(v) => parsed_yaml(text@) == Some(v@),
            None => parsed_yaml(text@) is None,
        },
{
    serde_yaml::from_str::<serde_yaml::Value>(text).ok().map(library_value)
}

/// The text that `serde_yaml::to_string` writes for a mapping of the
/// library's model, or `None` when `serde_yaml` refuses it.
pub uninterp spec fn emitted_yaml(mapping: Seq<(YamlView, YamlView)>) -> Option<Seq<char>>;

/// Turns a node of the library's model back into a `serde_yaml` value,
/// node for node: texts become strings, mappings become mappings with
/// their entries in order, and any other node is read back from its YAML
/// text; `None` when that text does not read back.
#[verifier::external_body]
fn serde_value(value: &YamlValue) -> Option<serde_yaml::Value> {
    match value {
        YamlValue::Text(text) => Some(serde_yaml::Value::String(text.clone())),
        YamlValue::Mapping(mapping) => serde_mapping(mapping),
        YamlValue::Other(text) => serde_yaml::from_str(text).ok(),
    }
}

/// Turns a mapping of the library's model into a `serde_yaml` mapping
/// value, entry for entry and in order.
#[verifier::external_body]
fn serde_mapping(mapping: &YamlMapping) -> Option<serde_yaml::Value> {
    let entries: Option<serde_yaml::Mapping> =
        mapping.entries.iter().map(|(key, value)| Some((serde_value(key)?, serde_value(value)?))).collect();
    entries.map(serde_yaml::Value::Mapping)
}

/// Calls `serde_yaml::to_string` to write a mapping as a YAML document; its
/// result is named by `emitted_yaml`, and `None` stands for the error that
/// `serde_yaml` reports.
#[verifier::external_body]
pub(crate) fn emit_yaml(mapping: &YamlMapping) -> (r: Option<String>)
    ensures
        match r {
            Some(text) => emitted_yaml(mapping@) == Some(text@),
            None => emitted_yaml(mapping@) is None,
        },
{
    serde_mapping(mapping).and_then(|converted| serde_yaml::to_string(&converted).ok())
}

} // verus!
