use semantic_units::position::{find_key_lines, line_starts_entry};

fn cs(s: &str) -> Vec<char> {
    s.chars().collect()
}

#[test]
fn key_on_first_line_runs_to_next_entry() {
    let source = "a:\n  x: 1\n  y: 2\nb: 3\n";
    assert_eq!(find_key_lines(source, "a"), (1, 3));
    assert_eq!(find_key_lines(source, "b"), (4, 4));
}

#[test]
fn span_runs_to_the_last_line_when_nothing_follows() {
    assert_eq!(find_key_lines("a: 1\nserver:\n  port: 80\n  host: h", "server"), (2, 4));
    assert_eq!(find_key_lines("only", "only"), (1, 1));
}

#[test]
fn missing_key_spans_whole_text() {
    assert_eq!(find_key_lines("alpha\nbeta\ngamma", "zeta"), (1, 3));
    assert_eq!(find_key_lines("alpha\n", "zeta"), (1, 1));
}

#[test]
fn empty_text_gives_the_span_one_to_zero() {
    assert_eq!(find_key_lines("", "zeta"), (1, 0));
    assert_eq!(find_key_lines("", ""), (1, 0));
}

#[test]
fn key_is_found_as_a_substring_not_as_a_token() {
    let source = "cat: 1\na: 2\n";
    assert_eq!(find_key_lines(source, "a"), (1, 1));
}

#[test]
fn first_holding_line_wins_when_the_key_recurs() {
    let source = "x:\n  port: 1\nport: 2\n";
    assert_eq!(find_key_lines(source, "port"), (2, 2));
}

#[test]
fn empty_and_indented_lines_belong_to_the_entry() {
    let source = "k:\n\n  a\n\t b\n   \nnext: 1\nlast: 2";
    assert_eq!(find_key_lines(source, "k"), (1, 5));
    assert_eq!(find_key_lines(source, "next"), (6, 6));
    assert_eq!(find_key_lines(source, "last"), (7, 7));
}

#[test]
fn a_line_of_other_white_space_ends_the_span() {
    assert_eq!(find_key_lines("k: 1\n\u{a0}\u{a0}\nz: 2", "k"), (1, 1));
    assert_eq!(find_key_lines("k: 1\n\u{c}\nz: 2", "k"), (1, 1));
    assert_eq!(find_key_lines("k: 1\n\r\r\nz: 2", "k"), (1, 1));
}

#[test]
fn an_empty_line_does_not_end_the_span() {
    assert_eq!(find_key_lines("k: 1\n\n\r\nz: 2", "k"), (1, 3));
    assert_eq!(find_key_lines("k: 1\n\n", "k"), (1, 2));
}

#[test]
fn the_empty_key_is_held_by_the_first_line() {
    assert_eq!(find_key_lines("a\n b\nc", ""), (1, 2));
}

#[test]
fn entry_start_is_a_line_that_is_not_empty_and_begins_with_neither_space_nor_tab() {
    assert!(line_starts_entry(&cs("key: 1")));
    assert!(line_starts_entry(&cs("}")));
    assert!(line_starts_entry(&cs("\u{a0}")));
    assert!(line_starts_entry(&cs("\u{c}")));
    assert!(line_starts_entry(&cs("x ")));
    assert!(!line_starts_entry(&cs(" key")));
    assert!(!line_starts_entry(&cs("\tkey")));
    assert!(!line_starts_entry(&cs(" ")));
    assert!(!line_starts_entry(&cs("")));
}
