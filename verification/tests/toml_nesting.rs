use semantic_units::config::{parse_config_file, parse_toml};
use semantic_units::dispatch::batch_parse_files;
use semantic_units::error::ParseError;
use semantic_units::nesting::{nesting_is_within, TOML_NESTING_LIMIT};

fn refused_as_too_deep(source: &str) -> bool {
    matches!(
        parse_toml("a.toml", source),
        Err(ParseError::StructuralParseFailure { ref message })
            if message == "TOML parse error: recursion limit exceeded"
    )
}

fn nested_array(levels: usize) -> String {
    format!("a = {}1{}\n", "[".repeat(levels), "]".repeat(levels))
}

fn nested_tables(levels: usize) -> String {
    format!("a = {}1{}\n", "{a=".repeat(levels), "}".repeat(levels))
}

fn dotted_key(dots: usize) -> String {
    format!("a{} = 1\n", ".a".repeat(dots))
}

fn dotted_header(dots: usize) -> String {
    format!("[a{}]\nx = 1\n", ".a".repeat(dots))
}

fn counts(text: &str, nesting: usize) -> bool {
    nesting_is_within(text, nesting) && (nesting == 0 || !nesting_is_within(text, nesting - 1))
}

#[test]
fn the_limit_is_two_hundred_and_fifty_six() {
    assert_eq!(TOML_NESTING_LIMIT, 256);
}

#[test]
fn open_brackets_and_braces_count_and_closed_ones_do_not() {
    assert!(counts("", 0));
    assert!(counts("a = 1\nb = \"x\"\n", 0));
    assert!(counts("a = [1, 2]", 1));
    assert!(counts("a = [[1], [2], [3], [4]]", 2));
    assert!(counts("a = { b = { c = 1 } }", 2));
    assert!(counts("a = [1]\nb = [2]\nc = [3]\nd = {e = [4]}\n", 2));
}

#[test]
fn brackets_in_strings_and_comments_do_not_count() {
    assert!(counts("a = \"[[[[\"\n", 0));
    assert!(counts("a = '{{{{'\n", 0));
    assert!(counts("# [[[[ {{{{\na = 1\n", 0));
    assert!(counts("a = \"\\\"[[\"\n", 0));
    assert!(counts("a = \"\"\"\n[[[[\n\"\" [[ \"\"\"\nb = [1]\n", 1));
    assert!(counts("a = '''\n[[[[\n''\n'''\nb = [1]\n", 1));
    assert!(counts("a = \"\"\nb = ''\nc = [1]", 1));
    assert!(counts("a = \"\" # x\nc = [[1]]", 2));
}

#[test]
fn closing_brackets_in_strings_close_nothing() {
    assert!(counts("a = [\"]\", [\"]\", [\"]\", 1]]]", 3));
    assert!(counts("a = [ # ]\n [ # ]\n [ 1 ]]]", 3));
    assert!(counts("a = { b = \"}\", c = { d = '}', e = {} } }", 3));
}

#[test]
fn dots_of_keys_count_and_other_dots_do_not() {
    assert!(counts("a.b.c = 1", 2));
    assert!(counts("a = 1.5\nb = [1.5, 2.5, 3.5]\nc = \"1.2.3\"\n", 1));
    assert!(counts("a.\"b.c\".d = 1", 2));
    assert!(counts("a = { b.c = 1 }", 2));
    assert!(counts("a.b = 1\nc.d = 2\ne.f = 3\n", 1));
    assert!(counts("a={b=[1.5,2.5]}", 2));
    assert!(counts("a = { b = [1.5, 2.5], c = 3.5, d = [[4.5, 5.5], [6.5]] }", 3));
}

#[test]
fn the_dots_of_a_key_are_dropped_where_its_value_ends() {
    assert!(counts("a = { b.c = 1, d.e = 2, f.g = 3 }", 2));
    assert!(counts("a = { b.c.d = 1, e = 2, f.g = 3 }", 3));
    assert!(counts("a = [\n { b.c = 1 },\n { d.e = 2 },\n { f.g = 3 },\n]\n", 3));
    assert!(counts("a.b = { c.d = [ { e.f = 1 } ], g = 1 }", 6));
    assert!(counts("a.b = { c.d = [ { e.f = 1 } ], g.h.i.j = 1 }", 6));
    assert!(counts("a.b = { c.d = [ { e.f = 1 } ], g.h.i.j.k.l = 1 }", 7));
}

#[test]
fn a_statement_counts_the_header_above_it() {
    assert!(counts("[t]\n[u]\n[v]\n", 1));
    assert!(counts("[a.b.c]", 3));
    assert!(counts("[a.b.c]\nx = 1\n", 3));
    assert!(counts("[a.b.c]\nd.e = [[1]]\n", 6));
    assert!(counts("[a.b.c]\nd.e = [[1]]\n[f]\ng = 1\n", 6));
    assert!(counts("[a]\nx = [1]\n[b.c.d.e]\ny = 1\n", 4));
    assert!(counts("[[w]]\n", 2));
    assert!(counts("[[w]]\nx = [1]\n", 3));
}

#[test]
fn an_inline_table_with_an_array_of_forty_decimals_is_parsed() {
    let numbers: Vec<String> = (0..40).map(|i| format!("{}.5", i)).collect();
    let text = format!("a = {{ b = [{}] }}\n", numbers.join(", "));
    assert!(counts(&text, 2));
    let units = parse_toml("a.toml", &text).unwrap();
    assert_eq!(units.len(), 1);
    assert_eq!(units[0].name, "a");
    assert!(units[0].content.starts_with("[a]\nb = [0.5, 1.5, 2.5, "));
}

#[test]
fn an_inline_table_with_forty_dotted_keys_is_parsed() {
    let pairs: Vec<String> = (0..40).map(|i| format!("k{}.x.y = {}", i, i)).collect();
    let text = format!("a = {{ {} }}\n", pairs.join(", "));
    assert!(counts(&text, 3));
    let units = parse_toml("a.toml", &text).unwrap();
    assert_eq!(units.len(), 1);
    assert_eq!(units[0].name, "a");
    assert!(units[0].content.starts_with("[a]\n"));
    assert!(units[0].content.contains("y = 39\n"), "{}", units[0].content);
    assert_eq!(units[0].content.matches("y = ").count(), 40);
}

#[test]
fn texts_that_nest_thirty_three_to_the_limit_deep_are_parsed() {
    for levels in [33, 64, 100, 128, 129, 200, TOML_NESTING_LIMIT] {
        assert!(counts(&nested_array(levels), levels));
        assert_eq!(parse_toml("a.toml", &nested_array(levels)).unwrap().len(), 1);
        assert_eq!(parse_toml("a.toml", &nested_tables(levels)).unwrap().len(), 1);
        assert_eq!(parse_toml("a.toml", &dotted_key(levels)).unwrap().len(), 1);
        assert_eq!(parse_toml("a.toml", &dotted_header(levels - 1)).unwrap().len(), 1);
    }
}

#[test]
fn texts_beyond_the_limit_are_refused() {
    let over = TOML_NESTING_LIMIT + 1;
    assert!(refused_as_too_deep(&nested_array(over)));
    assert!(refused_as_too_deep(&nested_tables(over)));
    assert!(refused_as_too_deep(&dotted_key(over)));
    assert!(refused_as_too_deep(&dotted_header(over - 1)));
    assert!(refused_as_too_deep(&format!("[a{}]\nx = [[1]]\n", ".a".repeat(TOML_NESTING_LIMIT - 2))));
}

#[test]
fn texts_at_the_limit_are_parsed_on_worker_threads() {
    let files = vec![
        ("arrays.toml".to_string(), nested_array(TOML_NESTING_LIMIT)),
        ("tables.toml".to_string(), nested_tables(TOML_NESTING_LIMIT)),
        ("keys.toml".to_string(), dotted_key(TOML_NESTING_LIMIT)),
        ("header.toml".to_string(), dotted_header(TOML_NESTING_LIMIT - 1)),
        ("arrays2.toml".to_string(), nested_array(TOML_NESTING_LIMIT)),
        ("tables2.toml".to_string(), nested_tables(TOML_NESTING_LIMIT)),
        ("keys2.toml".to_string(), dotted_key(TOML_NESTING_LIMIT)),
        ("header2.toml".to_string(), dotted_header(TOML_NESTING_LIMIT - 1)),
    ];
    let results = batch_parse_files(files).unwrap();
    assert_eq!(results.len(), 8);
    for r in results.iter() {
        assert_eq!(r.units.len(), 1);
    }
}

#[test]
fn a_text_of_open_brackets_only_is_refused_without_being_parsed() {
    let text = format!("a={}", "[".repeat(200_000));
    assert!(refused_as_too_deep(&text));
    let text = format!("a={}", "{a=".repeat(200_000));
    assert!(refused_as_too_deep(&text));
    let text = format!("a{} = 1", ".a".repeat(200_000));
    assert!(refused_as_too_deep(&text));
    let text = format!("[a{}]", ".a".repeat(200_000));
    assert!(refused_as_too_deep(&text));
    let text = format!("a = {}", "[\"]\",".repeat(200_000));
    assert!(refused_as_too_deep(&text));
}

#[test]
fn a_deep_text_fails_its_file_and_its_batch_with_the_same_error() {
    let text = format!("a={}", "[".repeat(100_000));
    assert!(matches!(
        parse_config_file("deep.toml", &text),
        Err(ParseError::StructuralParseFailure { ref message })
            if message == "TOML parse error: recursion limit exceeded"
    ));
    let files = vec![
        ("ok.toml".to_string(), "a = 1\n".to_string()),
        ("deep.toml".to_string(), text),
    ];
    assert!(matches!(
        batch_parse_files(files),
        Err(ParseError::StructuralParseFailure { ref message })
            if message == "TOML parse error: recursion limit exceeded"
    ));
}

#[test]
fn a_long_ordinary_document_nests_as_deep_as_its_deepest_statement() {
    let mut text = String::from("title = \"list [of] {things}\" # see [docs]\n");
    text.push_str("about = \"\"\"\nA text with [brackets], {braces} and dots...\n\"\"\"\n");
    for i in 0..300 {
        text.push_str(&format!(
            "\n[[package]]\nname = \"p{}\"\nversion = \"1.{}.0\"\ndependencies = [\n \"a.b [x]\",\n \"c.d\",\n]\nsize = [1.5, 2.5]\nmeta = {{ k.v = \"]\", w = [1, 2] }}\n\n[package.extra.info]\nx.y = 1\n",
            i, i
        ));
    }
    assert!(counts(&text, 5));
    let units = parse_toml("big.toml", &text).unwrap();
    let names: Vec<&str> = units.iter().map(|u| u.name.as_str()).collect();
    assert_eq!(names, vec!["about", "package", "title"]);
}
