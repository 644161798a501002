//! The configuration section extractor: one unit for each top-level entry
//! of a JSON, YAML or TOML document.

use crate::clock::{elapsed_since, now};
use crate::error::{ParseError, ParseErrorView};
use crate::extension::{extension_of, file_extension};
use crate::formats::{
    json_error_message, json_error_text, json_from_str, json_members, json_object_members,
    json_parsed, json_pretty, json_to_string_pretty, toml_error_message, toml_error_text,
    toml_from_str, toml_members, toml_parsed, toml_table_members, toml_text,
    toml_to_string, yaml_error_message, yaml_error_text, yaml_from_str,
    yaml_mapping_members, yaml_members, yaml_parsed, yaml_text, yaml_to_string,
};
use crate::nesting::{nesting_is_within, nesting_within, TOML_NESTING_LIMIT};
use crate::outcome::{file_outcome, units_outcome};
use crate::route::{borrowed, format_choice, format_for};
use crate::section::{
    config_units, entry_views, lemma_unit_per_key, section_units, string_keyed, ConfigEntry,
    ConfigFormat, EntryView,
};
use crate::text::text_view;
use crate::unit::{spans_ordered, unit_views, ParseResult, ResultView, SemanticUnit, UnitView};
use vstd::prelude::*;
use vstd::string::StringExecFns;

verus! {

/// The entries of a parsed JSON value: the members of an object, each with
/// its value as indented text; none for a value that is no object.
pub open spec fn json_entries(value: serde_json::Value) -> Seq<EntryView> {
    match json_members(value) {
        Some(ms) => ms.map_values(
            |m: (Seq<char>, serde_json::Value)|
                EntryView { key: Some(m.0), rendered: json_pretty(m.1), is_table: false },
        ),
        None => Seq::empty(),
    }
}

/// The entries of a parsed YAML value: the entries of a mapping, each with
/// its value's text where its key is a string; none for a value that is no
/// mapping.
pub open spec fn yaml_entries(value: serde_yaml::Value) -> Seq<EntryView> {
    match yaml_members(value) {
        Some(ms) => ms.map_values(
            |m: (Option<Seq<char>>, serde_yaml::Value)|
                EntryView {
                    key: m.0,
                    rendered: if m.0 is Some {
                        yaml_text(m.1)
                    } else {
                        None
                    },
                    is_table: false,
                },
        ),
        None => Seq::empty(),
    }
}

/// The entries of a parsed TOML value: the entries of a table, each with its
/// value's text; none for a value that is no table.
pub open spec fn toml_entries(value: toml::Value) -> Seq<EntryView> {
    match toml_members(value) {
        Some(ms) => ms.map_values(
            |m: (Seq<char>, toml::Value)|
                EntryView {
                    key: Some(m.0),
                    rendered: toml_text(m.1),
                    is_table: toml_members(m.1) is Some,
                },
        ),
        None => Seq::empty(),
    }
}

/// The failure that reports `detail`, the message of a format's parser,
/// under `prefix`, which names the format.
pub open spec fn structural_failure(prefix: Seq<char>, detail: Seq<char>) -> ParseErrorView {
    ParseErrorView::StructuralParseFailure { message: prefix + detail }
}

/// What the extraction of the JSON text `source` gives: the units of its
/// top-level entries, or the failure that reports why it is not JSON.
pub open spec fn json_document(source: Seq<char>) -> Result<Seq<UnitView>, ParseErrorView> {
    match json_parsed(source) {
        Ok(value) => Ok(section_units(source, json_entries(value), ConfigFormat::Json)),
        Err(error) => Err(structural_failure("JSON parse error: "@, json_error_text(error))),
    }
}

/// What the extraction of the YAML text `source` gives: the units of its
/// top-level entries, or the failure that reports why it is not YAML.
pub open spec fn yaml_document(source: Seq<char>) -> Result<Seq<UnitView>, ParseErrorView> {
    match yaml_parsed(source) {
        Ok(value) => Ok(section_units(source, yaml_entries(value), ConfigFormat::Yaml)),
        Err(error) => Err(structural_failure("YAML parse error: "@, yaml_error_text(error))),
    }
}

/// The detail of the failure for a TOML text that nests too deep.
pub open spec fn too_deep() -> Seq<char> {
    "recursion limit exceeded"@
}

/// What the extraction of the TOML text `source` gives: the units of its
/// top-level entries, or the failure that reports why it is not TOML. A
/// text that nests deeper than [`TOML_NESTING_LIMIT`] is refused without
/// being parsed, because the stack of a thread may not hold the descent of
/// the parser; every other text that is TOML gives its units.
pub open spec fn toml_document(source: Seq<char>) -> Result<Seq<UnitView>, ParseErrorView> {
    if !nesting_within(source, TOML_NESTING_LIMIT as int) {
        Err(structural_failure("TOML parse error: "@, too_deep()))
    } else {
        match toml_parsed(source) {
            Ok(value) => Ok(section_units(source, toml_entries(value), ConfigFormat::Toml)),
            Err(error) => Err(structural_failure("TOML parse error: "@, toml_error_text(error))),
        }
    }
}

/// The failure that reports `detail` under `prefix`.
fn failure(prefix: &str, detail: String) -> (e: ParseError)
    ensures
        e@ == structural_failure(prefix@, detail@),
{
    let mut message = prefix.to_owned();
    message.append(detail.as_str());
    ParseError::StructuralParseFailure { message }
}

/// Reads the entries of a parsed JSON value.
fn read_json_entries(value: &serde_json::Value) -> (entries: Vec<ConfigEntry>)
    ensures
        entry_views(entries@) == json_entries(*value),
        json_members(*value) matches Some(ms) ==> entries.len() == ms.len(),
        json_members(*value) is None ==> entries.len() == 0,
{
    let mut entries: Vec<ConfigEntry> = Vec::new();
    match json_object_members(value) {
        Some(members) => {
            let ghost ms = json_members(*value)->0;
            let mut i: usize = 0;
            while i < members.len()
                invariant
                    i <= members.len(),
                    json_members(*value) == Some(ms),
                    ms == members@.map_values(|m: (String, serde_json::Value)| (m.0@, m.1)),
                    entries.len() == i,
                    entry_views(entries@) == json_entries(*value).take(i as int),
                decreases members.len() - i,
            {
                let member = &members[i];
                assert(ms[i as int] == (member.0@, member.1));
                let entry = ConfigEntry {
                    key: Some(member.0.clone()),
                    rendered: json_to_string_pretty(&member.1),
                    is_table: false,
                };
                entries.push(entry);
                assert(entry_views(entries@) =~= json_entries(*value).take(i + 1));
                i += 1;
            }
            assert(json_entries(*value).take(members.len() as int) =~= json_entries(*value));
        },
        None => {
            assert(entry_views(entries@) =~= json_entries(*value));
        },
    }
    entries
}

/// Reads the entries of a parsed YAML value.
fn read_yaml_entries(value: &serde_yaml::Value) -> (entries: Vec<ConfigEntry>)
    ensures
        entry_views(entries@) == yaml_entries(*value),
        yaml_members(*value) matches Some(ms) ==> entries.len() == ms.len(),
        yaml_members(*value) is None ==> entries.len() == 0,
{
    let mut entries: Vec<ConfigEntry> = Vec::new();
    match yaml_mapping_members(value) {
        Some(members) => {
            let ghost ms = yaml_members(*value)->0;
            let mut i: usize = 0;
            while i < members.len()
                invariant
                    i <= members.len(),
                    yaml_members(*value) == Some(ms),
                    ms == members@.map_values(
                        |m: (Option<String>, serde_yaml::Value)| (text_view(m.0), m.1),
                    ),
                    entries.len() == i,
                    entry_views(entries@) == yaml_entries(*value).take(i as int),
                decreases members.len() - i,
            {
                let member = &members[i];
                assert(ms[i as int] == (text_view(member.0), member.1));
                let entry = match &member.0 {
                    Some(key) => ConfigEntry {
                        key: Some(key.clone()),
                        rendered: yaml_to_string(&member.1),
                        is_table: false,
                    },
                    None => ConfigEntry { key: None, rendered: None, is_table: false },
                };
                entries.push(entry);
                assert(entry_views(entries@) =~= yaml_entries(*value).take(i + 1));
                i += 1;
            }
            assert(yaml_entries(*value).take(members.len() as int) =~= yaml_entries(*value));
        },
        None => {
            assert(entry_views(entries@) =~= yaml_entries(*value));
        },
    }
    entries
}

/// Reads the entries of a parsed TOML value.
fn read_toml_entries(value: &toml::Value) -> (entries: Vec<ConfigEntry>)
    ensures
        entry_views(entries@) == toml_entries(*value),
        toml_members(*value) matches Some(ms) ==> entries.len() == ms.len(),
        toml_members(*value) is None ==> entries.len() == 0,
{
    let mut entries: Vec<ConfigEntry> = Vec::new();
    match toml_table_members(value) {
        Some(members) => {
            let ghost ms = toml_members(*value)->0;
            let mut i: usize = 0;
            while i < members.len()
                invariant
                    i <= members.len(),
                    toml_members(*value) == Some(ms),
                    ms == members@.map_values(|m: (String, toml::Value)| (m.0@, m.1)),
                    entries.len() == i,
                    entry_views(entries@) == toml_entries(*value).take(i as int),
                decreases members.len() - i,
            {
                let member = &members[i];
                assert(ms[i as int] == (member.0@, member.1));
                let entry = ConfigEntry {
                    key: Some(member.0.clone()),
                    rendered: toml_to_string(&member.1),
                    is_table: toml_table_members(&member.1).is_some(),
                };
                entries.push(entry);
                assert(entry_views(entries@) =~= toml_entries(*value).take(i + 1));
                i += 1;
            }
            assert(toml_entries(*value).take(members.len() as int) =~= toml_entries(*value));
        },
        None => {
            assert(entry_views(entries@) =~= toml_entries(*value));
        },
    }
    entries
}

/// Extracts the top-level members of a JSON document as units.
///
/// A text that is not JSON is refused with the parser's message. A document
/// whose top-level value is no object gives no units. Otherwise each member
/// gives one unit, in the order in which `serde_json` holds the members.
pub fn parse_json(_file_path: &str, source_code: &str) -> (outcome: Result<
    Vec<SemanticUnit>,
    ParseError,
>)
    ensures
        units_outcome(outcome) == json_document(source_code@),
        outcome matches Ok(units) ==> spans_ordered(unit_views(units@)),
        outcome matches Ok(units) ==> (json_parsed(source_code@) matches Ok(v) ==> (json_members(v)
            matches Some(ms) ==> units.len() == ms.len() && forall|i: int|
            0 <= i < ms.len() ==> (#[trigger] units[i])@.name == ms[i].0)),
{
    match json_from_str(source_code) {
        Ok(value) => {
            let entries = read_json_entries(&value);
            let units = config_units(source_code, &entries, ConfigFormat::Json);
            proof {
                if json_members(value) is Some {
                    let all = json_entries(value);
                    lemma_unit_per_key(source_code@, all, ConfigFormat::Json);
                    assert forall|i: int| 0 <= i < all.len() implies (#[trigger] units[i])@.name
                        == json_members(value)->0[i].0 by {
                        assert(unit_views(units@)[i] == units[i]@);
                    }
                }
            }
            Ok(units)
        },
        Err(error) => Err(failure("JSON parse error: ", json_error_message(&error))),
    }
}

/// Extracts the top-level entries of a YAML document as units.
///
/// A text that is not YAML is refused with the parser's message. A document
/// whose top-level value is no mapping gives no units. Otherwise each entry
/// whose key is a string gives one unit, in the order of the document;
/// entries with other keys are passed over in silence.
pub fn parse_yaml(_file_path: &str, source_code: &str) -> (outcome: Result<
    Vec<SemanticUnit>,
    ParseError,
>)
    ensures
        units_outcome(outcome) == yaml_document(source_code@),
        outcome matches Ok(units) ==> spans_ordered(unit_views(units@)),
        outcome matches Ok(units) ==> (yaml_parsed(source_code@) matches Ok(v) ==> units.len()
            == string_keyed(yaml_entries(v))),
{
    match yaml_from_str(source_code) {
        Ok(value) => {
            let entries = read_yaml_entries(&value);
            Ok(config_units(source_code, &entries, ConfigFormat::Yaml))
        },
        Err(error) => Err(failure("YAML parse error: ", yaml_error_message(&error))),
    }
}

/// Extracts the top-level entries of a TOML document as units.
///
/// A text that nests deeper than [`TOML_NESTING_LIMIT`] is refused before
/// it is parsed: the parser has no bound of its own, and the stack of a
/// thread may not hold its descent. A text that is not TOML is refused with
/// the parser's message. Every other text gives one unit for each entry of
/// its top-level table, in the order in which `toml` holds the entries.
pub fn parse_toml(_file_path: &str, source_code: &str) -> (outcome: Result<
    Vec<SemanticUnit>,
    ParseError,
>)
    ensures
        units_outcome(outcome) == toml_document(source_code@),
        outcome matches Ok(units) ==> spans_ordered(unit_views(units@)),
{
    if !nesting_is_within(source_code, TOML_NESTING_LIMIT) {
        return Err(failure("TOML parse error: ", "recursion limit exceeded".to_owned()));
    }
    match toml_from_str(source_code) {
        Ok(value) => {
            let entries = read_toml_entries(&value);
            Ok(config_units(source_code, &entries, ConfigFormat::Toml))
        },
        Err(error) => Err(failure("TOML parse error: ", toml_error_message(&error))),
    }
}

/// What the extraction of a document of `format` gives.
pub open spec fn document_units(format: ConfigFormat, source: Seq<char>) -> Result<
    Seq<UnitView>,
    ParseErrorView,
> {
    match format {
        ConfigFormat::Json => json_document(source),
        ConfigFormat::Yaml => yaml_document(source),
        ConfigFormat::Toml => toml_document(source),
    }
}

/// What the extraction of a configuration file gives: the format is told
/// from the extension of `path`, and the units are those of the document.
pub open spec fn config_extraction(path: Seq<char>, source: Seq<char>) -> Result<
    ResultView,
    ParseErrorView,
> {
    match format_choice(extension_of(path)) {
        Err(e) => Err(e),
        Ok(format) => match document_units(format, source) {
            Ok(units) => Ok(ResultView { file_path: path, language: format.name(), units }),
            Err(e) => Err(e),
        },
    }
}

/// Extracts the top-level sections of a configuration file.
///
/// The format is told from the extension of `file_path`: `json`, `yaml` or
/// `yml`, `toml`. A path without an extension and an extension of no
/// configuration format are refused, and so is a text that is not valid data
/// of its format.
pub fn parse_config_file(file_path: &str, source_code: &str) -> (outcome: Result<
    ParseResult,
    ParseError,
>)
    ensures
        file_outcome(outcome) == config_extraction(file_path@, source_code@),
        outcome matches Ok(res) ==> spans_ordered(res@.units),
{
    let start = now();
    let extension = file_extension(file_path);
    let format = match format_for(borrowed(&extension)) {
        Ok(f) => f,
        Err(e) => {
            return Err(e);
        },
    };
    let parsed = match format {
        ConfigFormat::Json => parse_json(file_path, source_code),
        ConfigFormat::Yaml => parse_yaml(file_path, source_code),
        ConfigFormat::Toml => parse_toml(file_path, source_code),
    };
    match parsed {
        Ok(units) => Ok(
            ParseResult {
                file_path: file_path.to_owned(),
                language: format.label(),
                units,
                parse_time: elapsed_since(&start),
            },
        ),
        Err(e) => Err(e),
    }
}

} // verus!
