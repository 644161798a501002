//! Approximate line spans for configuration keys.
//!
//! A parsed configuration value carries no positions, so the span of a
//! top-level entry is estimated from the raw text: the entry starts at the
//! first line that holds its key and runs up to the line before the next line
//! that is not empty and starts with neither a space nor a tab.

use crate::text::{
    chars_of, contains, contains_chars, lemma_lines_len, line_views, lines, split_lines,
};
use vstd::prelude::*;

verus! {

/// Whether a line looks like the start of a top-level entry: it is not
/// empty and does not start with a space or a tab.
pub open spec fn starts_entry(line: Seq<char>) -> bool {
    line.len() > 0 && line[0] != ' ' && line[0] != '\t'
}

/// The index of the first line at or after `from` that holds `key`, or the
/// number of lines where there is none.
pub open spec fn line_holding(ls: Seq<Seq<char>>, key: Seq<char>, from: int) -> int
    decreases ls.len() - from,
{
    if from < 0 || from >= ls.len() {
        ls.len() as int
    } else if contains(ls[from], key) {
        from
    } else {
        line_holding(ls, key, from + 1)
    }
}

/// The index of the first line at or after `from` that starts an entry, or
/// the number of lines where there is none.
pub open spec fn next_entry(ls: Seq<Seq<char>>, from: int) -> int
    decreases ls.len() - from,
{
    if from < 0 || from >= ls.len() {
        ls.len() as int
    } else if starts_entry(ls[from]) {
        from
    } else {
        next_entry(ls, from + 1)
    }
}

/// The estimated span of `key` in `source`, as first and last line counted
/// from 1. Where no line holds the key the span is the whole text.
pub open spec fn key_line_span(source: Seq<char>, key: Seq<char>) -> (int, int) {
    let ls = lines(source);
    let at = line_holding(ls, key, 0);
    if at < ls.len() {
        (at + 1, next_entry(ls, at + 1))
    } else {
        (1, ls.len() as int)
    }
}

/// The line that `line_holding` names lies at or after `from`.
pub proof fn lemma_line_holding_bounds(ls: Seq<Seq<char>>, key: Seq<char>, from: int)
    requires
        0 <= from <= ls.len(),
    ensures
        from <= line_holding(ls, key, from) <= ls.len(),
    decreases ls.len() - from,
{
    if from < ls.len() && !contains(ls[from], key) {
        lemma_line_holding_bounds(ls, key, from + 1);
    }
}

/// The line that `next_entry` names lies at or after `from`.
pub proof fn lemma_next_entry_bounds(ls: Seq<Seq<char>>, from: int)
    requires
        0 <= from <= ls.len(),
    ensures
        from <= next_entry(ls, from) <= ls.len(),
    decreases ls.len() - from,
{
    if from < ls.len() && !starts_entry(ls[from]) {
        lemma_next_entry_bounds(ls, from + 1);
    }
}

/// In a text that is not empty the estimated span of any key lies within the
/// text and its first line does not come after its last.
pub proof fn lemma_key_line_span_ordered(source: Seq<char>, key: Seq<char>)
    requires
        source.len() > 0,
    ensures
        1 <= key_line_span(source, key).0 <= key_line_span(source, key).1 <= lines(source).len(),
{
    let ls = lines(source);
    lemma_lines_len(source);
    lemma_line_holding_bounds(ls, key, 0);
    let at = line_holding(ls, key, 0);
    if at < ls.len() {
        lemma_next_entry_bounds(ls, at + 1);
    }
}

/// Whether `line` looks like the start of a top-level entry.
pub fn line_starts_entry(line: &Vec<char>) -> (r: bool)
    ensures
        r == starts_entry(line@),
{
    if line.len() == 0 {
        return false;
    }
    let c = line[0];
    c != ' ' && c != '\t'
}

/// Estimates the lines that the entry `key` takes up in `source`: first and
/// last line, counted from 1.
pub fn find_key_lines(source: &str, key: &str) -> (span: (usize, usize))
    ensures
        span.0 == key_line_span(source@, key@).0,
        span.1 == key_line_span(source@, key@).1,
{
    let text = chars_of(source);
    let needle = chars_of(key);
    let ls = split_lines(&text);
    let ghost lv = lines(source@);
    proof {
        lemma_lines_len(source@);
        assert(lv.len() == ls@.len());
    }
    let count = ls.len();
    let mut at: usize = 0;
    while at < count
        invariant
            count == ls.len(),
            at <= count,
            lv == line_views(ls@),
            lv == lines(source@),
            needle@ == key@,
            line_holding(lv, key@, 0) == line_holding(lv, key@, at as int),
        decreases count - at,
    {
        assert(lv[at as int] == ls@[at as int]@);
        if contains_chars(&ls[at], &needle) {
            assert(line_holding(lv, key@, 0) == at);
            let mut end: usize = at + 1;
            while end < count
                invariant
                    count == ls.len(),
                    at < end <= count,
                    lv == line_views(ls@),
                    lv == lines(source@),
                    line_holding(lv, key@, 0) == at,
                    next_entry(lv, at + 1) == next_entry(lv, end as int),
                decreases count - end,
            {
                assert(lv[end as int] == ls@[end as int]@);
                if line_starts_entry(&ls[end]) {
                    return (at + 1, end);
                }
                end += 1;
            }
            return (at + 1, end);
        }
        at += 1;
    }
    (1, count)
}

} // verus!
