//! Configuration sections: what is read of a top-level entry of a parsed
//! document, the text of the section that stands for it, and the units of a
//! run of entries.

use crate::position::{find_key_lines, key_line_span, lemma_key_line_span_ordered};
use crate::text::{
    chars_of, line_views, lines, split_lines, str_is, string_of, text_view, trim, trimmed,
};
use crate::unit::{spans_ordered, unit_views, SemanticUnit, UnitView};
use vstd::prelude::*;
use vstd::string::StringExecFns;
use vstd::utf8::encode_utf8;

verus! {

/// A supported configuration format.
#[derive(Clone, Copy, Debug, PartialEq, Eq, Structural)]
pub enum ConfigFormat {
    Json,
    Yaml,
    Toml,
}

impl ConfigFormat {
    /// The name of the format, as units and results carry it.
    pub open spec fn name(self) -> Seq<char> {
        match self {
            ConfigFormat::Json => "Json"@,
            ConfigFormat::Yaml => "Yaml"@,
            ConfigFormat::Toml => "Toml"@,
        }
    }

    /// The name of the format as a string.
    pub fn label(&self) -> (s: String)
        ensures
            s@ == self.name(),
    {
        match self {
            ConfigFormat::Json => "Json".to_owned(),
            ConfigFormat::Yaml => "Yaml".to_owned(),
            ConfigFormat::Toml => "Toml".to_owned(),
        }
    }

    /// The format that files with the extension `ext` are written in.
    pub open spec fn for_extension(ext: Seq<char>) -> Option<ConfigFormat> {
        if ext == "json"@ {
            Some(ConfigFormat::Json)
        } else if ext == "yaml"@ || ext == "yml"@ {
            Some(ConfigFormat::Yaml)
        } else if ext == "toml"@ {
            Some(ConfigFormat::Toml)
        } else {
            None
        }
    }

    /// The format that files with the extension `ext` are written in, or
    /// `None` where the extension belongs to no configuration format.
    pub fn from_extension(ext: &str) -> (r: Option<ConfigFormat>)
        ensures
            r == Self::for_extension(ext@),
    {
        if str_is(ext, "json") {
            Some(ConfigFormat::Json)
        } else if str_is(ext, "yaml") || str_is(ext, "yml") {
            Some(ConfigFormat::Yaml)
        } else if str_is(ext, "toml") {
            Some(ConfigFormat::Toml)
        } else {
            None
        }
    }
}

/// What the extractor reads of one top-level entry of a parsed document.
#[derive(Debug)]
pub struct ConfigEntry {
    /// The key of the entry; `None` where the key is not a string.
    pub key: Option<String>,
    /// The value of the entry written back as text by the format's own
    /// serializer; `None` where the serializer gave up.
    pub rendered: Option<String>,
    /// Whether the value is itself a table.
    pub is_table: bool,
}

/// What a [`ConfigEntry`] holds, as mathematical values.
pub struct EntryView {
    pub key: Option<Seq<char>>,
    pub rendered: Option<Seq<char>>,
    pub is_table: bool,
}

impl View for ConfigEntry {
    type V = EntryView;

    open spec fn view(&self) -> EntryView {
        EntryView {
            key: text_view(self.key),
            rendered: text_view(self.rendered),
            is_table: self.is_table,
        }
    }
}

/// The views of a list of entries, in order.
pub open spec fn entry_views(entries: Seq<ConfigEntry>) -> Seq<EntryView> {
    entries.map_values(|e: ConfigEntry| e@)
}

/// A line pushed in by two spaces; an empty line stays empty.
pub open spec fn indent_line(line: Seq<char>) -> Seq<char> {
    if line.len() == 0 {
        line
    } else {
        seq![' ', ' '] + line
    }
}

/// The lines `ls`, each pushed in by two spaces, with a line feed between
/// one line and the next.
pub open spec fn indented(ls: Seq<Seq<char>>) -> Seq<char>
    decreases ls.len(),
{
    if ls.len() == 0 {
        Seq::empty()
    } else if ls.len() == 1 {
        indent_line(ls[0])
    } else {
        indented(ls.drop_last()) + seq!['\n'] + indent_line(ls.last())
    }
}

/// The content of a JSON section: the key in double quotes, a colon, and the
/// value as indented text.
pub open spec fn json_section(key: Seq<char>, rendered: Option<Seq<char>>) -> Seq<char> {
    match rendered {
        Some(pretty) => "\""@ + key + "\": "@ + pretty,
        None => "\""@ + key + "\": [complex object]"@,
    }
}

/// The content of a YAML section: the key and a colon on a line of their
/// own, then the value's text with each of its lines pushed in by two
/// spaces.
pub open spec fn yaml_section(key: Seq<char>, rendered: Option<Seq<char>>) -> Seq<char> {
    match rendered {
        Some(text) => key + ":\n"@ + indented(lines(text)),
        None => key + ": [complex object]"@,
    }
}

/// The content of a TOML section: for a table its header line and the
/// table's text, for any other value the key, an equals sign and the value's
/// text without the white space around it.
pub open spec fn toml_section(key: Seq<char>, rendered: Option<Seq<char>>, is_table: bool) -> Seq<
    char,
> {
    match rendered {
        Some(text) => if is_table {
            "["@ + key + "]\n"@ + text
        } else {
            key + " = "@ + trim(text)
        },
        None => "["@ + key + "]\n[complex section]"@,
    }
}

/// The content of the section of `key` in a document of `format`.
pub open spec fn section_text(format: ConfigFormat, key: Seq<char>, entry: EntryView) -> Seq<char> {
    match format {
        ConfigFormat::Json => json_section(key, entry.rendered),
        ConfigFormat::Yaml => yaml_section(key, entry.rendered),
        ConfigFormat::Toml => toml_section(key, entry.rendered, entry.is_table),
    }
}

/// The unit that stands for the entry of `key`. Its lines are estimated from
/// the raw text; its byte span is not a place in the source but runs from 0
/// to the length of its content.
pub open spec fn section_unit(
    source: Seq<char>,
    format: ConfigFormat,
    key: Seq<char>,
    entry: EntryView,
) -> UnitView {
    let content = section_text(format, key, entry);
    UnitView {
        unit_type: "class"@,
        name: key,
        start_line: key_line_span(source, key).0 as nat,
        end_line: key_line_span(source, key).1 as nat,
        start_byte: 0,
        end_byte: encode_utf8(content).len(),
        signature: key,
        content,
        language: format.name(),
    }
}

/// The units of a document: one for each entry whose key is a string, in
/// the order of the entries. Entries with other keys are passed over.
pub open spec fn section_units(source: Seq<char>, entries: Seq<EntryView>, format: ConfigFormat) -> Seq<
    UnitView,
>
    decreases entries.len(),
{
    if entries.len() == 0 {
        Seq::empty()
    } else {
        let rest = section_units(source, entries.drop_last(), format);
        match entries.last().key {
            Some(key) => rest.push(section_unit(source, format, key, entries.last())),
            None => rest,
        }
    }
}

/// The number of entries whose key is a string.
pub open spec fn string_keyed(entries: Seq<EntryView>) -> nat
    decreases entries.len(),
{
    if entries.len() == 0 {
        0
    } else {
        string_keyed(entries.drop_last()) + if entries.last().key is Some {
            1nat
        } else {
            0nat
        }
    }
}

/// A document gives exactly as many units as it has entries with a string
/// key.
pub proof fn lemma_units_count(source: Seq<char>, entries: Seq<EntryView>, format: ConfigFormat)
    ensures
        section_units(source, entries, format).len() == string_keyed(entries),
        string_keyed(entries) <= entries.len(),
    decreases entries.len(),
{
    if entries.len() > 0 {
        lemma_units_count(source, entries.drop_last(), format);
    }
}

/// Where every key is a string, a document gives one unit for each entry,
/// in order, named by the entry's key.
pub proof fn lemma_unit_per_key(source: Seq<char>, entries: Seq<EntryView>, format: ConfigFormat)
    requires
        forall|i: int| 0 <= i < entries.len() ==> (#[trigger] entries[i]).key is Some,
    ensures
        section_units(source, entries, format).len() == entries.len(),
        forall|i: int|
            0 <= i < entries.len() ==> #[trigger] section_units(source, entries, format)[i]
                == section_unit(source, format, entries[i].key->0, entries[i]),
    decreases entries.len(),
{
    if entries.len() > 0 {
        let front = entries.drop_last();
        assert forall|i: int| 0 <= i < front.len() implies (#[trigger] front[i]).key is Some by {
            assert(front[i] == entries[i]);
        }
        lemma_unit_per_key(source, front, format);
        assert(entries.last() == entries[entries.len() - 1]);
        assert forall|i: int| 0 <= i < entries.len() implies #[trigger] section_units(
            source,
            entries,
            format,
        )[i] == section_unit(source, format, entries[i].key->0, entries[i]) by {
            if i < front.len() {
                assert(front[i] == entries[i]);
                assert(section_units(source, entries, format)[i] == section_units(
                    source,
                    front,
                    format,
                )[i]);
            }
        }
    }
}

/// The units of a document that is not empty, or that has no entries, have
/// their line spans in order.
pub proof fn lemma_section_units_ordered(
    source: Seq<char>,
    entries: Seq<EntryView>,
    format: ConfigFormat,
)
    requires
        source.len() > 0 || entries.len() == 0,
    ensures
        spans_ordered(section_units(source, entries, format)),
    decreases entries.len(),
{
    if entries.len() > 0 {
        lemma_section_units_ordered(source, entries.drop_last(), format);
        match entries.last().key {
            Some(key) => {
                lemma_key_line_span_ordered(source, key);
            },
            None => {},
        }
    }
}

/// The lines of `text`, each pushed in by two spaces, joined by line feeds.
pub fn indent_text(text: &str) -> (s: String)
    ensures
        s@ == indented(lines(text@)),
{
    let chars = chars_of(text);
    let ls = split_lines(&chars);
    let ghost lv = line_views(ls@);
    let mut out: Vec<char> = Vec::new();
    let mut i: usize = 0;
    assert(lv.take(0) =~= Seq::<Seq<char>>::empty());
    while i < ls.len()
        invariant
            i <= ls.len(),
            lv == line_views(ls@),
            out@ == indented(lv.take(i as int)),
        decreases ls.len() - i,
    {
        let line = &ls[i];
        let ghost done = out@;
        proof {
            assert(lv.take(i + 1).drop_last() =~= lv.take(i as int));
            assert(lv.take(i + 1).last() == line@);
            assert(lv.take(i + 1).len() == i + 1);
            if i == 0 {
                assert(lv.take(1)[0] == line@);
            }
        }
        if i > 0 {
            out.push('\n');
        }
        let ghost joined = out@;
        if line.len() > 0 {
            out.push(' ');
            out.push(' ');
        }
        let ghost headed = out@;
        let mut j: usize = 0;
        while j < line.len()
            invariant
                j <= line.len(),
                out@ == headed + line@.take(j as int),
            decreases line.len() - j,
        {
            out.push(line[j]);
            assert(line@.take(j + 1) =~= line@.take(j as int).push(line@[j as int]));
            j += 1;
        }
        proof {
            assert(line@.take(line@.len() as int) =~= line@);
            assert(out@ =~= joined + indent_line(line@));
            if i > 0 {
                assert(joined =~= done + seq!['\n']);
            } else {
                assert(joined =~= done);
                assert(done =~= Seq::<char>::empty());
                assert(out@ =~= indent_line(line@));
            }
        }
        i += 1;
    }
    assert(lv.take(ls.len() as int) =~= lv);
    string_of(&out)
}

/// The content of a JSON section.
pub fn format_json_section(key: &str, rendered: &Option<String>) -> (s: String)
    ensures
        s@ == json_section(key@, text_view(*rendered)),
{
    let mut s = "\"".to_owned();
    s.append(key);
    match rendered {
        Some(pretty) => {
            s.append("\": ");
            s.append(pretty.as_str());
        },
        None => {
            s.append("\": [complex object]");
        },
    }
    s
}

/// The content of a YAML section.
pub fn format_yaml_section(key: &str, rendered: &Option<String>) -> (s: String)
    ensures
        s@ == yaml_section(key@, text_view(*rendered)),
{
    let mut s = key.to_owned();
    match rendered {
        Some(text) => {
            s.append(":\n");
            let body = indent_text(text.as_str());
            s.append(body.as_str());
        },
        None => {
            s.append(": [complex object]");
        },
    }
    s
}

/// The content of a TOML section.
pub fn format_toml_section(key: &str, rendered: &Option<String>, is_table: bool) -> (s: String)
    ensures
        s@ == toml_section(key@, text_view(*rendered), is_table),
{
    match rendered {
        Some(text) => {
            if is_table {
                let mut s = "[".to_owned();
                s.append(key);
                s.append("]\n");
                s.append(text.as_str());
                s
            } else {
                let mut s = key.to_owned();
                s.append(" = ");
                let chars = chars_of(text.as_str());
                let inner = trimmed(&chars);
                let body = string_of(&inner);
                s.append(body.as_str());
                s
            }
        },
        None => {
            let mut s = "[".to_owned();
            s.append(key);
            s.append("]\n[complex section]");
            s
        },
    }
}

/// The unit that stands for the entry of `key` in `source`.
pub fn section_unit_of(source: &str, format: ConfigFormat, key: &str, entry: &ConfigEntry) -> (unit:
    SemanticUnit)
    ensures
        unit@ == section_unit(source@, format, key@, entry@),
{
    let span = find_key_lines(source, key);
    let content = match format {
        ConfigFormat::Json => format_json_section(key, &entry.rendered),
        ConfigFormat::Yaml => format_yaml_section(key, &entry.rendered),
        ConfigFormat::Toml => format_toml_section(key, &entry.rendered, entry.is_table),
    };
    let end_byte = content.as_str().as_bytes().len();
    SemanticUnit {
        unit_type: "class".to_owned(),
        name: key.to_owned(),
        start_line: span.0,
        end_line: span.1,
        start_byte: 0,
        end_byte,
        signature: key.to_owned(),
        content,
        language: format.label(),
    }
}

/// Turns the top-level entries of a parsed document into units: one for
/// each entry whose key is a string, in the order of the entries.
pub fn config_units(source: &str, entries: &Vec<ConfigEntry>, format: ConfigFormat) -> (units: Vec<
    SemanticUnit,
>)
    ensures
        unit_views(units@) == section_units(source@, entry_views(entries@), format),
        units.len() == string_keyed(entry_views(entries@)),
        source@.len() > 0 || entries.len() == 0 ==> spans_ordered(unit_views(units@)),
{
    let mut units: Vec<SemanticUnit> = Vec::new();
    let ghost all = entry_views(entries@);
    let mut i: usize = 0;
    assert(all.take(0) =~= Seq::<EntryView>::empty());
    assert(unit_views(units@) =~= Seq::<UnitView>::empty());
    while i < entries.len()
        invariant
            i <= entries.len(),
            all == entry_views(entries@),
            unit_views(units@) == section_units(source@, all.take(i as int), format),
        decreases entries.len() - i,
    {
        let entry = &entries[i];
        proof {
            assert(all.take(i + 1).drop_last() =~= all.take(i as int));
            assert(all.take(i + 1).last() == entry@);
        }
        match &entry.key {
            Some(key) => {
                let unit = section_unit_of(source, format, key.as_str(), entry);
                let ghost before = units@;
                units.push(unit);
                assert(unit_views(units@) =~= unit_views(before).push(unit@));
            },
            None => {},
        }
        i += 1;
    }
    proof {
        assert(all.take(entries.len() as int) =~= all);
        lemma_units_count(source@, all, format);
        if source@.len() > 0 || entries.len() == 0 {
            lemma_section_units_ordered(source@, all, format);
        }
    }
    units
}

} // verus!
