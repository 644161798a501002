//! The grammar engine.
//!
//! Everything in this file is trusted: it declares the types of the
//! `tree-sitter` crate that the library carries around and states, without
//! proof, what the calls into that crate and into the grammar crates do.
//! The extraction logic is verified against these statements.

use crate::capture::{all_span, all_well_formed, match_views, CapturedNode, NodeView};
use crate::language::SupportedLanguage;
use streaming_iterator::StreamingIterator;
use vstd::prelude::*;

verus! {

#[verifier::external_type_specification]
#[verifier::external_body]
pub struct ExLanguage(tree_sitter::Language);

#[verifier::external_type_specification]
#[verifier::external_body]
pub struct ExParser(tree_sitter::Parser);

#[verifier::external_type_specification]
#[verifier::external_body]
pub struct ExTree(tree_sitter::Tree);

#[verifier::external_type_specification]
#[verifier::external_body]
pub struct ExQuery(tree_sitter::Query);

/// The grammar that the grammar crate of a language supplies.
pub uninterp spec fn grammar_of(lang: SupportedLanguage) -> tree_sitter::Language;

/// The grammar that a parser has been set to, if any.
pub uninterp spec fn parser_grammar(parser: tree_sitter::Parser) -> Option<tree_sitter::Language>;

/// Whether a parser takes `grammar`: whether the grammar was made for a
/// version of the engine that this one can run.
pub uninterp spec fn grammar_accepted(grammar: tree_sitter::Language) -> bool;

/// The syntax tree that a parser set to `grammar` builds of `source`, if it
/// builds one.
pub uninterp spec fn parsed_tree(grammar: tree_sitter::Language, source: Seq<char>) -> Option<
    tree_sitter::Tree,
>;

/// The text that a syntax tree was built of.
pub uninterp spec fn tree_text(tree: tree_sitter::Tree) -> Seq<char>;

/// The query that `pattern` compiles to for `grammar`, if it compiles.
pub uninterp spec fn compiled_query(
    grammar: tree_sitter::Language,
    pattern: Seq<char>,
) -> Option<tree_sitter::Query>;

/// What running `query` over `tree` hands out: for each match, in the order
/// in which the matches are found, the nodes that the match has captured.
pub uninterp spec fn matches_of(
    query: tree_sitter::Query,
    tree: tree_sitter::Tree,
    source: Seq<char>,
) -> Seq<Seq<NodeView>>;

/// `LANGUAGE` of `tree-sitter-python` as a `tree_sitter::Language`: the
/// grammar of Python.
#[verifier::external_body]
pub(crate) fn python_grammar() -> (grammar: tree_sitter::Language)
    ensures
        grammar == grammar_of(SupportedLanguage::Python),
{
    tree_sitter_python::LANGUAGE.into()
}

/// `LANGUAGE` of `tree-sitter-javascript` as a `tree_sitter::Language`: the
/// grammar of JavaScript.
#[verifier::external_body]
pub(crate) fn javascript_grammar() -> (grammar: tree_sitter::Language)
    ensures
        grammar == grammar_of(SupportedLanguage::JavaScript),
{
    tree_sitter_javascript::LANGUAGE.into()
}

/// `LANGUAGE_TYPESCRIPT` of `tree-sitter-typescript` as a `tree_sitter::Language`: the
/// grammar of TypeScript.
#[verifier::external_body]
pub(crate) fn typescript_grammar() -> (grammar: tree_sitter::Language)
    ensures
        grammar == grammar_of(SupportedLanguage::TypeScript),
{
    tree_sitter_typescript::LANGUAGE_TYPESCRIPT.into()
}

/// `LANGUAGE` of `tree-sitter-java` as a `tree_sitter::Language`: the
/// grammar of Java.
#[verifier::external_body]
pub(crate) fn java_grammar() -> (grammar: tree_sitter::Language)
    ensures
        grammar == grammar_of(SupportedLanguage::Java),
{
    tree_sitter_java::LANGUAGE.into()
}

/// `LANGUAGE` of `tree-sitter-go` as a `tree_sitter::Language`: the
/// grammar of Go.
#[verifier::external_body]
pub(crate) fn go_grammar() -> (grammar: tree_sitter::Language)
    ensures
        grammar == grammar_of(SupportedLanguage::Go),
{
    tree_sitter_go::LANGUAGE.into()
}

/// `LANGUAGE` of `tree-sitter-rust` as a `tree_sitter::Language`: the
/// grammar of Rust.
#[verifier::external_body]
pub(crate) fn rust_grammar() -> (grammar: tree_sitter::Language)
    ensures
        grammar == grammar_of(SupportedLanguage::Rust),
{
    tree_sitter_rust::LANGUAGE.into()
}

/// `LANGUAGE` of `tree-sitter-ruby` as a `tree_sitter::Language`: the
/// grammar of Ruby.
#[verifier::external_body]
pub(crate) fn ruby_grammar() -> (grammar: tree_sitter::Language)
    ensures
        grammar == grammar_of(SupportedLanguage::Ruby),
{
    tree_sitter_ruby::LANGUAGE.into()
}

/// `LANGUAGE` of `tree-sitter-cpp` as a `tree_sitter::Language`: the
/// grammar of Cpp.
#[verifier::external_body]
pub(crate) fn cpp_grammar() -> (grammar: tree_sitter::Language)
    ensures
        grammar == grammar_of(SupportedLanguage::Cpp),
{
    tree_sitter_cpp::LANGUAGE.into()
}

/// `LANGUAGE` of `tree-sitter-c-sharp` as a `tree_sitter::Language`: the
/// grammar of CSharp.
#[verifier::external_body]
pub(crate) fn c_sharp_grammar() -> (grammar: tree_sitter::Language)
    ensures
        grammar == grammar_of(SupportedLanguage::CSharp),
{
    tree_sitter_c_sharp::LANGUAGE.into()
}

/// `LANGUAGE` of `tree-sitter-sequel` as a `tree_sitter::Language`: the
/// grammar of Sql.
#[verifier::external_body]
pub(crate) fn sql_grammar() -> (grammar: tree_sitter::Language)
    ensures
        grammar == grammar_of(SupportedLanguage::Sql),
{
    tree_sitter_sequel::LANGUAGE.into()
}

/// `LANGUAGE_PHP` of `tree-sitter-php` as a `tree_sitter::Language`: the
/// grammar of Php.
#[verifier::external_body]
pub(crate) fn php_grammar() -> (grammar: tree_sitter::Language)
    ensures
        grammar == grammar_of(SupportedLanguage::Php),
{
    tree_sitter_php::LANGUAGE_PHP.into()
}

/// `tree_sitter::Parser::new`: a parser that has no grammar yet.
#[verifier::external_body]
pub(crate) fn new_parser() -> (parser: tree_sitter::Parser)
    ensures
        parser_grammar(parser) is None,
{
    tree_sitter::Parser::new()
}

/// `tree_sitter::Parser::set_language`: whether it succeeds depends on the
/// grammar alone. On success the parser is set to `grammar`; on failure (a
/// grammar of an incompatible version) it keeps what it had.
#[verifier::external_body]
pub(crate) fn set_language(parser: &mut tree_sitter::Parser, grammar: &tree_sitter::Language) -> (ok:
    bool)
    ensures
        ok == grammar_accepted(*grammar),
        ok ==> parser_grammar(*final(parser)) == Some(*grammar),
        !ok ==> parser_grammar(*final(parser)) == parser_grammar(*old(parser)),
{
    parser.set_language(grammar).is_ok()
}

/// `tree_sitter::Parser::parse` without an earlier tree: the result is the
/// tree that the parser's grammar gives for `source`, a tree remembers the
/// text it was built of, and the parser keeps its grammar. A parser that
/// has a grammar builds a tree of every text: the crate names a missing
/// grammar as the one reason for none.
#[verifier::external_body]
pub(crate) fn parse_text(parser: &mut tree_sitter::Parser, source: &str) -> (tree: Option<
    tree_sitter::Tree,
>)
    ensures
        parser_grammar(*final(parser)) == parser_grammar(*old(parser)),
        parser_grammar(*old(parser)) matches Some(g) ==> tree == parsed_tree(g, source@),
        parser_grammar(*old(parser)) is Some ==> tree is Some,
        tree matches Some(t) ==> tree_text(t) == source@,
{
    parser.parse(source, None)
}

/// `tree_sitter::Query::new`, its error dropped: the query that `pattern`
/// compiles to for `grammar`, or `None` where the grammar does not know the
/// pattern's node kinds or the pattern is malformed.
#[verifier::external_body]
pub(crate) fn compile_query(grammar: &tree_sitter::Language, pattern: &str) -> (query: Option<
    tree_sitter::Query,
>)
    ensures
        query == compiled_query(*grammar, pattern@),
{
    tree_sitter::Query::new(grammar, pattern).ok()
}

/// `tree_sitter::QueryCursor::matches` on the root of `tree`, walked to its
/// end: one item for each match. The nodes that a match has captured are
/// recorded as plain values: byte span and rows as the node gives them, and
/// the text from `Node::utf8_text`. A node ends no earlier than it starts, in
/// bytes and in rows, lies within the source, and its text, where it has one,
/// is the slice of the source between its byte offsets.
#[verifier::external_body]
pub(crate) fn run_query(query: &tree_sitter::Query, tree: &tree_sitter::Tree, source: &str) -> (found:
    Vec<Vec<CapturedNode>>)
    requires
        tree_text(*tree) == source@,
    ensures
        match_views(found@) == matches_of(*query, *tree, source@),
        all_well_formed(match_views(found@)),
        all_span(match_views(found@), source@),
{
    let mut cursor = tree_sitter::QueryCursor::new();
    let mut items = cursor.matches(query, tree.root_node(), source.as_bytes());
    let mut found = Vec::new();
    while let Some(m) = items.next() {
        found.push(m.captures().iter().map(|c| CapturedNode {
            start_byte: c.node.start_byte(),
            end_byte: c.node.end_byte(),
            start_row: c.node.start_position().row,
            end_row: c.node.end_position().row,
            text: c.node.utf8_text(source.as_bytes()).ok().map(str::to_owned),
        }).collect());
    }
    found
}

} // verus!
