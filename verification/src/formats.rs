//! The structured-data parsers.
//!
//! Everything in this file is trusted: it declares the value and error types
//! of `serde_json`, `serde_yaml` and `toml`, and states, without proof, what
//! the calls into those crates do. A parsed value is carried around as it
//! is; what the library reads of it (the members of the top-level value and
//! the text that a member's value is written back as) is asked of the crate
//! that made it.

use crate::nesting::{nesting_within, TOML_NESTING_LIMIT};
use crate::text::text_view;
use vstd::prelude::*;

verus! {

#[verifier::external_type_specification]
#[verifier::external_body]
pub struct ExJsonValue(serde_json::Value);

#[verifier::external_type_specification]
#[verifier::external_body]
pub struct ExJsonError(serde_json::Error);

#[verifier::external_type_specification]
#[verifier::external_body]
pub struct ExYamlValue(serde_yaml::Value);

#[verifier::external_type_specification]
#[verifier::external_body]
pub struct ExYamlError(serde_yaml::Error);

#[verifier::external_type_specification]
#[verifier::external_body]
pub struct ExTomlValue(toml::Value);

#[verifier::external_type_specification]
#[verifier::external_body]
pub struct ExTomlError(toml::de::Error);

/// What `serde_json` makes of a text: the value it holds, or why it is not
/// JSON.
pub uninterp spec fn json_parsed(source: Seq<char>) -> Result<serde_json::Value, serde_json::Error>;

/// The message of a `serde_json` error.
pub uninterp spec fn json_error_text(error: serde_json::Error) -> Seq<char>;

/// The members of a JSON object, key and value, in the order in which the
/// object holds them; `None` for a value that is no object.
pub uninterp spec fn json_members(value: serde_json::Value) -> Option<
    Seq<(Seq<char>, serde_json::Value)>,
>;

/// A JSON value written back as indented text, where that succeeds.
pub uninterp spec fn json_pretty(value: serde_json::Value) -> Option<Seq<char>>;

/// What `serde_yaml` makes of a text: the value it holds, or why it is not
/// YAML.
pub uninterp spec fn yaml_parsed(source: Seq<char>) -> Result<serde_yaml::Value, serde_yaml::Error>;

/// The message of a `serde_yaml` error.
pub uninterp spec fn yaml_error_text(error: serde_yaml::Error) -> Seq<char>;

/// The entries of a YAML mapping in the order of the document, each with its
/// key where the key is a string; `None` for a value that is no mapping.
pub uninterp spec fn yaml_members(value: serde_yaml::Value) -> Option<
    Seq<(Option<Seq<char>>, serde_yaml::Value)>,
>;

/// A YAML value written back as text, where that succeeds.
pub uninterp spec fn yaml_text(value: serde_yaml::Value) -> Option<Seq<char>>;

/// What `toml` makes of a text: the value it holds, or why it is not TOML.
pub uninterp spec fn toml_parsed(source: Seq<char>) -> Result<toml::Value, toml::de::Error>;

/// The message of a `toml` error.
pub uninterp spec fn toml_error_text(error: toml::de::Error) -> Seq<char>;

/// The entries of a TOML table, key and value, in the order in which the
/// table holds them; `None` for a value that is no table.
pub uninterp spec fn toml_members(value: toml::Value) -> Option<Seq<(Seq<char>, toml::Value)>>;

/// A TOML value written back as text, where that succeeds.
pub uninterp spec fn toml_text(value: toml::Value) -> Option<Seq<char>>;

/// The views of the keys of a list of members.
pub open spec fn keyed_views<V>(members: Option<Vec<(String, V)>>) -> Option<Seq<(Seq<char>, V)>> {
    match members {
        Some(ms) => Some(ms@.map_values(|m: (String, V)| (m.0@, m.1))),
        None => None,
    }
}

/// The views of the optional keys of a list of members.
pub open spec fn optional_keyed_views<V>(members: Option<Vec<(Option<String>, V)>>) -> Option<
    Seq<(Option<Seq<char>>, V)>,
> {
    match members {
        Some(ms) => Some(ms@.map_values(|m: (Option<String>, V)| (text_view(m.0), m.1))),
        None => None,
    }
}

/// `serde_json::from_str` for `serde_json::Value`: the result is what
/// `serde_json` makes of the text. An object that has members does not come
/// of the empty text.
#[verifier::external_body]
pub(crate) fn json_from_str(source: &str) -> (parsed: Result<serde_json::Value, serde_json::Error>)
    ensures
        parsed == json_parsed(source@),
        parsed matches Ok(v) ==> (json_members(v) matches Some(ms) ==> ms.len() > 0 ==> source@.len()
            > 0),
{
    serde_json::from_str(source)
}

/// The `Display` text of a `serde_json::Error`.
#[verifier::external_body]
pub(crate) fn json_error_message(error: &serde_json::Error) -> (message: String)
    ensures
        message@ == json_error_text(*error),
{
    error.to_string()
}

/// `serde_json::Map::iter` on the map of a `Value::Object`, each key and
/// value copied out: the result holds the members of the object in the map's
/// order, and is `None` for every other kind of value.
#[verifier::external_body]
pub(crate) fn json_object_members(value: &serde_json::Value) -> (members: Option<
    Vec<(String, serde_json::Value)>,
>)
    ensures
        keyed_views(members) == json_members(*value),
{
    match value {
        serde_json::Value::Object(map) => Some(
            map.iter().map(|(k, v)| (k.clone(), v.clone())).collect(),
        ),
        _ => None,
    }
}

/// `serde_json::to_string_pretty`, its error dropped: the value written back
/// as indented text.
#[verifier::external_body]
pub(crate) fn json_to_string_pretty(value: &serde_json::Value) -> (text: Option<String>)
    ensures
        text_view(text) == json_pretty(*value),
{
    serde_json::to_string_pretty(value).ok()
}

/// `serde_yaml::from_str` for `serde_yaml::Value`: the result is what
/// `serde_yaml` makes of the text. A mapping that has entries does not come
/// of the empty text.
#[verifier::external_body]
pub(crate) fn yaml_from_str(source: &str) -> (parsed: Result<serde_yaml::Value, serde_yaml::Error>)
    ensures
        parsed == yaml_parsed(source@),
        parsed matches Ok(v) ==> (yaml_members(v) matches Some(ms) ==> ms.len() > 0 ==> source@.len()
            > 0),
{
    serde_yaml::from_str(source)
}

/// The `Display` text of a `serde_yaml::Error`.
#[verifier::external_body]
pub(crate) fn yaml_error_message(error: &serde_yaml::Error) -> (message: String)
    ensures
        message@ == yaml_error_text(*error),
{
    error.to_string()
}

/// `serde_yaml::Mapping::iter` on the mapping of a `Value::Mapping`, each
/// entry copied out: the result holds the entries in the order of the
/// document, the key as a string where it is a `Value::String` and `None`
/// where it is not, and is `None` for every other kind of value.
#[verifier::external_body]
pub(crate) fn yaml_mapping_members(value: &serde_yaml::Value) -> (members: Option<
    Vec<(Option<String>, serde_yaml::Value)>,
>)
    ensures
        optional_keyed_views(members) == yaml_members(*value),
{
    match value {
        serde_yaml::Value::Mapping(map) => Some(map.iter().map(|(k, v)| (match k {
            serde_yaml::Value::String(s) => Some(s.clone()),
            _ => None,
        }, v.clone())).collect()),
        _ => None,
    }
}

/// `serde_yaml::to_string`, its error dropped: the value written back as
/// text.
#[verifier::external_body]
pub(crate) fn yaml_to_string(value: &serde_yaml::Value) -> (text: Option<String>)
    ensures
        text_view(text) == yaml_text(*value),
{
    serde_yaml::to_string(value).ok()
}

/// `str::parse` for `toml::Value`: the result is what `toml` makes of the
/// text. A table that has entries does not come of the empty text. The
/// parser, and what walks the value it has built, descend one level of
/// calls for each level of nesting and keep no bound, so a text that nests
/// deeper than [`TOML_NESTING_LIMIT`], which the stack of a thread may not
/// hold, is not handed over.
#[verifier::external_body]
pub(crate) fn toml_from_str(source: &str) -> (parsed: Result<toml::Value, toml::de::Error>)
    requires
        nesting_within(source@, TOML_NESTING_LIMIT as int),
    ensures
        parsed == toml_parsed(source@),
        parsed matches Ok(v) ==> (toml_members(v) matches Some(ms) ==> ms.len() > 0 ==> source@.len()
            > 0),
{
    source.parse::<toml::Value>()
}

/// The `Display` text of a `toml::de::Error`.
#[verifier::external_body]
pub(crate) fn toml_error_message(error: &toml::de::Error) -> (message: String)
    ensures
        message@ == toml_error_text(*error),
{
    error.to_string()
}

/// `toml::map::Map::iter` on the table of a `Value::Table`, each key and
/// value copied out: the result holds the entries of the table in the map's
/// order, and is `None` for every other kind of value.
#[verifier::external_body]
pub(crate) fn toml_table_members(value: &toml::Value) -> (members: Option<Vec<(String, toml::Value)>>)
    ensures
        keyed_views(members) == toml_members(*value),
{
    match value {
        toml::Value::Table(table) => Some(
            table.iter().map(|(k, v)| (k.clone(), v.clone())).collect(),
        ),
        _ => None,
    }
}

/// `toml::to_string`, its error dropped: the value written back as text.
#[verifier::external_body]
pub(crate) fn toml_to_string(value: &toml::Value) -> (text: Option<String>)
    ensures
        text_view(text) == toml_text(*value),
{
    toml::to_string(value).ok()
}

} // verus!
