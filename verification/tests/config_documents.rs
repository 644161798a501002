use semantic_units::config::{parse_config_file, parse_json, parse_toml, parse_yaml};
use semantic_units::error::ParseError;

fn names(units: &[semantic_units::unit::SemanticUnit]) -> Vec<String> {
    units.iter().map(|u| u.name.clone()).collect()
}

#[test]
fn json_object_with_two_members_gives_two_units() {
    let units = parse_json("a.json", "{\"a\":1,\"b\":{\"c\":2}}").unwrap();
    assert_eq!(units.len(), 2);
    assert_eq!(units[0].name, "a");
    assert_eq!(units[0].content, "\"a\": 1");
    assert_eq!(units[1].name, "b");
    assert_eq!(units[1].content, "\"b\": {\n  \"c\": 2\n}");
    for u in units.iter() {
        assert_eq!(u.unit_type, "class");
        assert_eq!(u.signature, u.name);
        assert_eq!(u.language, "Json");
        assert_eq!(u.start_byte, 0);
        assert_eq!(u.end_byte, u.content.len());
        assert_eq!((u.start_line, u.end_line), (1, 1));
    }
}

#[test]
fn json_members_come_in_document_order_one_unit_per_key() {
    let source = "{\n  \"zeta\": 1,\n  \"alpha\": [1, 2],\n  \"mid\": {\"x\": null},\n  \"s\": \"t\"\n}\n";
    let units = parse_json("c.json", source).unwrap();
    assert_eq!(names(&units), vec!["zeta", "alpha", "mid", "s"]);
    assert_eq!(units[1].content, "\"alpha\": [\n  1,\n  2\n]");
    assert_eq!(units[3].content, "\"s\": \"t\"");
    assert_eq!((units[0].start_line, units[0].end_line), (2, 5));
    assert_eq!((units[2].start_line, units[2].end_line), (4, 5));
}

#[test]
fn json_that_is_no_object_gives_no_units() {
    assert!(parse_json("a.json", "[1, 2, 3]").unwrap().is_empty());
    assert!(parse_json("a.json", "42").unwrap().is_empty());
    assert!(parse_json("a.json", "{}").unwrap().is_empty());
}

#[test]
fn invalid_json_is_refused_with_the_parsers_message() {
    match parse_json("a.json", "{\"a\": }") {
        Err(ParseError::StructuralParseFailure { message }) => {
            assert_eq!(message, "JSON parse error: expected value at line 1 column 7");
        }
        other => panic!("unexpected outcome {:?}", other),
    }
}

#[test]
fn empty_text_is_no_json() {
    match parse_json("a.json", "") {
        Err(ParseError::StructuralParseFailure { message }) => {
            assert_eq!(message, "JSON parse error: EOF while parsing a value at line 1 column 0");
        }
        other => panic!("unexpected outcome {:?}", other),
    }
}

#[test]
fn yaml_entries_with_string_keys_give_units_and_other_keys_are_skipped() {
    let source = "name: demo\n1: one\nserver:\n  port: 80\n  host: h\ntrue: yes\n";
    let units = parse_yaml("a.yaml", source).unwrap();
    assert_eq!(names(&units), vec!["name", "server"]);
    assert_eq!(units[0].content, "name:\n  demo");
    assert_eq!(units[1].content, "server:\n  port: 80\n  host: h");
    assert_eq!((units[0].start_line, units[0].end_line), (1, 1));
    assert_eq!((units[1].start_line, units[1].end_line), (3, 5));
    for u in units.iter() {
        assert_eq!(u.unit_type, "class");
        assert_eq!(u.signature, u.name);
        assert_eq!(u.language, "Yaml");
        assert_eq!(u.start_byte, 0);
        assert_eq!(u.end_byte, u.content.len());
    }
}

#[test]
fn yaml_that_is_no_mapping_gives_no_units() {
    assert!(parse_yaml("a.yaml", "- a\n- b\n").unwrap().is_empty());
    assert!(parse_yaml("a.yaml", "just text").unwrap().is_empty());
    assert!(parse_yaml("a.yaml", "").unwrap().is_empty());
}

#[test]
fn invalid_yaml_is_refused_with_the_parsers_message() {
    match parse_yaml("a.yaml", "a: [1, 2") {
        Err(ParseError::StructuralParseFailure { message }) => {
            assert!(message.starts_with("YAML parse error: did not find expected"), "{}", message);
        }
        other => panic!("unexpected outcome {:?}", other),
    }
}

#[test]
fn toml_entries_give_units_for_tables_and_plain_values() {
    let source = "title = \"x\"\nn = 3\nxs = [1, 2]\n\n[server]\nport = 80\n";
    let units = parse_toml("a.toml", source).unwrap();
    assert_eq!(names(&units), vec!["n", "server", "title", "xs"]);
    assert_eq!(units[0].content, "n = 3");
    assert_eq!(units[1].content, "[server]\nport = 80\n");
    assert_eq!(units[2].content, "title = \"x\"");
    assert_eq!(units[3].content, "xs = [1, 2]");
    assert_eq!((units[0].start_line, units[0].end_line), (2, 2));
    assert_eq!((units[1].start_line, units[1].end_line), (5, 5));
    assert_eq!((units[2].start_line, units[2].end_line), (1, 1));
    assert_eq!((units[3].start_line, units[3].end_line), (3, 4));
    for u in units.iter() {
        assert_eq!(u.unit_type, "class");
        assert_eq!(u.signature, u.name);
        assert_eq!(u.language, "Toml");
        assert_eq!(u.start_byte, 0);
        assert_eq!(u.end_byte, u.content.len());
    }
}

#[test]
fn empty_toml_gives_no_units() {
    assert!(parse_toml("a.toml", "").unwrap().is_empty());
    assert!(parse_toml("a.toml", "# only a comment\n").unwrap().is_empty());
}

#[test]
fn invalid_toml_is_refused_with_the_parsers_message() {
    match parse_toml("a.toml", "a = ") {
        Err(ParseError::StructuralParseFailure { message }) => {
            assert_eq!(message, "TOML parse error: unexpected eof encountered at line 1 column 5");
        }
        other => panic!("unexpected outcome {:?}", other),
    }
}

#[test]
fn config_file_is_read_by_the_format_of_its_extension() {
    let r = parse_config_file("conf/app.json", "{\"a\":1}").unwrap();
    assert_eq!(r.file_path, "conf/app.json");
    assert_eq!(r.language, "Json");
    assert_eq!(r.units.len(), 1);
    assert_eq!(r.units[0].content, "\"a\": 1");
    let r = parse_config_file("app.yaml", "a: 1\n").unwrap();
    assert_eq!(r.language, "Yaml");
    assert_eq!(r.units[0].content, "a:\n  1");
    let r = parse_config_file("app.yml", "a: 1\n").unwrap();
    assert_eq!(r.language, "Yaml");
    assert_eq!(r.units.len(), 1);
    let r = parse_config_file("Cargo.toml", "a = 1\n").unwrap();
    assert_eq!(r.language, "Toml");
    assert_eq!(r.units[0].content, "a = 1");
}

#[test]
fn config_file_of_another_extension_is_refused() {
    assert!(matches!(
        parse_config_file("app.ini", "a = 1"),
        Err(ParseError::UnsupportedFormat { ref extension }) if extension == "ini"
    ));
    assert!(matches!(
        parse_config_file("app.xyz", "{}"),
        Err(ParseError::UnsupportedFormat { ref extension }) if extension == "xyz"
    ));
}

#[test]
fn config_file_without_extension_is_refused() {
    assert!(matches!(parse_config_file("config", "{}"), Err(ParseError::MissingExtension)));
    assert!(matches!(parse_config_file(".json", "{}"), Err(ParseError::MissingExtension)));
}

#[test]
fn config_file_with_invalid_text_is_refused() {
    assert!(matches!(
        parse_config_file("a.json", "{"),
        Err(ParseError::StructuralParseFailure { ref message }) if message.starts_with("JSON parse error: ")
    ));
    assert!(matches!(
        parse_config_file("a.yml", "a: [1"),
        Err(ParseError::StructuralParseFailure { ref message }) if message.starts_with("YAML parse error: ")
    ));
    assert!(matches!(
        parse_config_file("a.toml", "a ="),
        Err(ParseError::StructuralParseFailure { ref message }) if message.starts_with("TOML parse error: ")
    ));
}
