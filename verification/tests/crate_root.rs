use semantic_units::{
    batch_parse_files, find_key_lines, parse_config_file, parse_json, parse_source_file, parse_toml,
    parse_yaml, CodeParser, ParseError, ParseResult, SemanticUnit, SupportedLanguage,
};

#[test]
fn the_main_items_are_reachable_from_the_crate_root() {
    assert_eq!(find_key_lines("a: 1\nb: 2", "b"), (2, 2));
    assert_eq!(parse_json("x.json", "{\"k\": true}").unwrap()[0].content, "\"k\": true");
    assert_eq!(parse_yaml("x.yaml", "k: true\n").unwrap()[0].content, "k:\n  true");
    assert_eq!(parse_toml("x.toml", "k = true\n").unwrap()[0].content, "k = true");
    assert_eq!(parse_config_file("x.toml", "k = true\n").unwrap().language, "Toml");
    assert_eq!(SupportedLanguage::from_extension("go"), Some(SupportedLanguage::Go));
    let mut parser = CodeParser::new();
    let one: ParseResult = parser.parse_file("x.go", "package p\n").unwrap();
    assert!(one.units.is_empty());
    let two = parse_source_file("x.go".to_string(), "package p\n".to_string()).unwrap();
    assert_eq!(two.language, one.language);
    let all = batch_parse_files(vec![("x.go".to_string(), "package p\n".to_string())]).unwrap();
    assert_eq!(all.len(), 1);
    let failed: Result<ParseResult, ParseError> = parser.parse_file("x", "");
    assert!(matches!(failed, Err(ParseError::MissingExtension)));
}

#[test]
fn a_cloned_result_holds_the_same_values() {
    let r = parse_source_file("m.rs".to_string(), "fn f() {}\nstruct S { a: u8 }\n".to_string()).unwrap();
    let c = r.clone();
    assert_eq!(c.file_path, r.file_path);
    assert_eq!(c.language, r.language);
    assert_eq!(c.parse_time, r.parse_time);
    assert_eq!(c.units.len(), r.units.len());
    let pairs: Vec<(&SemanticUnit, &SemanticUnit)> = c.units.iter().zip(r.units.iter()).collect();
    for (a, b) in pairs {
        assert_eq!(format!("{:?}", a), format!("{:?}", b));
    }
}
