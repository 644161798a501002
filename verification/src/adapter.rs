//! The structural extractor: a parser for each supported language, and the
//! extraction of one file with them.

use crate::capture::match_views;
use crate::clock::{elapsed_since, now};
use crate::error::{ParseError, ParseErrorView};
use crate::extension::{extension_of, file_extension};
use crate::extract::{all_lie_in, lemma_units_lie_in, units_from_captures, units_of};
use crate::grammar::{
    c_sharp_grammar, compile_query, compiled_query, cpp_grammar, go_grammar, grammar_accepted,
    grammar_of, java_grammar, javascript_grammar, matches_of, new_parser, parse_text,
    parsed_tree, parser_grammar, php_grammar, python_grammar, ruby_grammar, run_query,
    rust_grammar, set_language, sql_grammar, tree_text, typescript_grammar,
};
use crate::language::{SupportedLanguage, LANGUAGE_COUNT};
use crate::outcome::file_outcome;
use crate::route::{borrowed, language_choice, language_for};
use crate::unit::{
    spans_ordered, unit_views, ParseResult, ResultView, SemanticUnit, UnitKind, UnitView,
};
use vstd::prelude::*;

verus! {

/// The grammar that files of `lang` are parsed with.
pub open spec fn language_grammar(lang: SupportedLanguage) -> tree_sitter::Language {
    grammar_of(lang.parsed_as())
}

/// Picks the grammar that files of `lang` are parsed with.
pub fn get_language(lang: SupportedLanguage) -> (grammar: tree_sitter::Language)
    ensures
        grammar == language_grammar(lang),
{
    match lang {
        SupportedLanguage::Python => python_grammar(),
        SupportedLanguage::JavaScript => javascript_grammar(),
        SupportedLanguage::TypeScript => typescript_grammar(),
        SupportedLanguage::Java => java_grammar(),
        SupportedLanguage::Go => go_grammar(),
        SupportedLanguage::Rust => rust_grammar(),
        SupportedLanguage::Ruby => ruby_grammar(),
        SupportedLanguage::C => cpp_grammar(),
        SupportedLanguage::Cpp => cpp_grammar(),
        SupportedLanguage::CSharp => c_sharp_grammar(),
        SupportedLanguage::Sql => sql_grammar(),
        SupportedLanguage::Php => php_grammar(),
    }
}

/// The pattern of `lang` for constructs of `kind`.
pub open spec fn pattern_of(lang: SupportedLanguage, kind: UnitKind) -> Seq<char> {
    match kind {
        UnitKind::Function => lang.function_pattern(),
        UnitKind::Class => lang.class_pattern(),
    }
}

/// The units that the pattern of `lang` for `kind` finds in `tree`. A pattern
/// that the grammar does not accept finds nothing.
pub open spec fn pattern_units(
    lang: SupportedLanguage,
    kind: UnitKind,
    tree: tree_sitter::Tree,
    source: Seq<char>,
) -> Seq<UnitView> {
    match compiled_query(language_grammar(lang), pattern_of(lang, kind)) {
        Some(query) => units_of(matches_of(query, tree, source), kind, lang.name()),
        None => Seq::empty(),
    }
}

/// What the extraction of a file in `lang` holds once its syntax tree is
/// there: the units of the function pattern, then those of the class
/// pattern.
pub open spec fn extracted(
    path: Seq<char>,
    lang: SupportedLanguage,
    tree: tree_sitter::Tree,
    source: Seq<char>,
) -> ResultView {
    ResultView {
        file_path: path,
        language: lang.name(),
        units: pattern_units(lang, UnitKind::Function, tree, source) + pattern_units(
            lang,
            UnitKind::Class,
            tree,
            source,
        ),
    }
}

/// What structural extraction gives for `path` and `source`, given for
/// which languages a parser is at hand.
pub open spec fn code_extraction(
    has_adapter: spec_fn(SupportedLanguage) -> bool,
    path: Seq<char>,
    source: Seq<char>,
) -> Result<ResultView, ParseErrorView> {
    match language_choice(extension_of(path)) {
        Err(e) => Err(e),
        Ok(lang) => if !has_adapter(lang) {
            Err(ParseErrorView::AdapterNotFound)
        } else {
            match parsed_tree(language_grammar(lang), source) {
                None => Err(ParseErrorView::ParseFailure),
                Some(tree) => Ok(extracted(path, lang, tree, source)),
            }
        },
    }
}

/// A parser for each supported language.
pub struct CodeParser {
    adapters: Vec<Option<tree_sitter::Parser>>,
}

impl CodeParser {
    /// Whether there is a slot for each language and each parser at hand is
    /// set to the grammar of its language.
    pub closed spec fn well_formed(&self) -> bool {
        &&& self.adapters@.len() == LANGUAGE_COUNT
        &&& forall|i: int|
            0 <= i < self.adapters@.len() ==> (#[trigger] self.adapters@[i] matches Some(p)
                ==> parser_grammar(p) == Some(language_grammar(SupportedLanguage::at(i))))
    }

    /// Whether a parser for `lang` is at hand.
    pub closed spec fn has_adapter(&self, lang: SupportedLanguage) -> bool {
        self.adapters@[lang.ordinal()] is Some
    }

    /// Makes a parser for each supported language. A language whose grammar
    /// the engine does not accept is left without one.
    pub fn new() -> (parser: CodeParser)
        ensures
            parser.well_formed(),
            forall|lang: SupportedLanguage|
                parser.has_adapter(lang) == grammar_accepted(#[trigger] language_grammar(lang)),
    {
        let mut adapters: Vec<Option<tree_sitter::Parser>> = Vec::new();
        let mut i: usize = 0;
        while i < LANGUAGE_COUNT
            invariant
                i <= LANGUAGE_COUNT,
                adapters@.len() == i,
                forall|k: int|
                    0 <= k < i ==> (#[trigger] adapters@[k] matches Some(p) ==> parser_grammar(p)
                        == Some(language_grammar(SupportedLanguage::at(k)))),
                forall|k: int|
                    0 <= k < i ==> (#[trigger] adapters@[k] is Some) == grammar_accepted(
                        language_grammar(SupportedLanguage::at(k)),
                    ),
            decreases LANGUAGE_COUNT - i,
        {
            let lang = SupportedLanguage::from_index(i);
            let grammar = get_language(lang);
            let mut parser = new_parser();
            let ok = set_language(&mut parser, &grammar);
            if ok {
                adapters.push(Some(parser));
            } else {
                adapters.push(None);
            }
            i += 1;
        }
        let parser = CodeParser { adapters };
        proof {
            assert forall|lang: SupportedLanguage|
                parser.has_adapter(lang) == grammar_accepted(#[trigger] language_grammar(lang)) by {
                assert(SupportedLanguage::at(lang.ordinal()) == lang);
                assert(parser.adapters@[lang.ordinal()] is Some == grammar_accepted(
                    language_grammar(SupportedLanguage::at(lang.ordinal())),
                ));
            }
        }
        parser
    }

    /// The units that the pattern of `lang` for `kind` finds in `tree`.
    fn extract_kind(
        lang: SupportedLanguage,
        kind: UnitKind,
        tree: &tree_sitter::Tree,
        source: &str,
    ) -> (units: Vec<SemanticUnit>)
        requires
            tree_text(*tree) == source@,
        ensures
            unit_views(units@) == pattern_units(lang, kind, *tree, source@),
            spans_ordered(unit_views(units@)),
            all_lie_in(unit_views(units@), source@),
    {
        let grammar = get_language(lang);
        let pattern = match kind {
            UnitKind::Function => lang.function_query(),
            UnitKind::Class => lang.class_query(),
        };
        match compile_query(&grammar, pattern) {
            Some(query) => {
                let found = run_query(&query, tree, source);
                let name = lang.label();
                proof {
                    lemma_units_lie_in(match_views(found@), kind, name@, source@);
                }
                units_from_captures(&found, kind, name.as_str())
            },
            None => {
                let units: Vec<SemanticUnit> = Vec::new();
                assert(unit_views(units@) =~= Seq::<UnitView>::empty());
                units
            },
        }
    }

    /// Extracts the functions and the class-like constructs of one file.
    ///
    /// The language is told from the extension of `file_path`. The units of
    /// the function pattern come first, then those of the class pattern,
    /// each in the order in which the grammar engine finds the matches. Each
    /// match gives one unit. A pattern that the grammar does not accept
    /// gives no units and does not fail the file. A language without a
    /// parser is refused. A parser that is at hand builds a tree of every
    /// text, so the file never fails for want of a tree.
    pub fn parse_file(&mut self, file_path: &str, source_code: &str) -> (outcome: Result<
        ParseResult,
        ParseError,
    >)
        requires
            old(self).well_formed(),
        ensures
            final(self).well_formed(),
            forall|lang: SupportedLanguage| final(self).has_adapter(lang) == old(self).has_adapter(lang),
            file_outcome(outcome) == code_extraction(
                |lang: SupportedLanguage| old(self).has_adapter(lang),
                file_path@,
                source_code@,
            ),
            outcome matches Ok(res) ==> spans_ordered(res@.units),
            outcome matches Ok(res) ==> all_lie_in(res@.units, source_code@),
            file_outcome(outcome) != Err::<ResultView, ParseErrorView>(ParseErrorView::ParseFailure),
    {
        let start = now();
        let extension = file_extension(file_path);
        let lang = match language_for(borrowed(&extension)) {
            Ok(l) => l,
            Err(e) => {
                return Err(e);
            },
        };
        let idx = lang.index();
        let ghost before = self.adapters@;
        let slot = self.adapters.remove(idx);
        let mut parser = match slot {
            Some(p) => p,
            None => {
                self.adapters.insert(idx, None);
                assert(self.adapters@ =~= before);
                return Err(ParseError::AdapterNotFound);
            },
        };
        let parsed = parse_text(&mut parser, source_code);
        self.adapters.insert(idx, Some(parser));
        proof {
            assert(self.adapters@ =~= before.update(idx as int, Some(parser)));
            assert forall|l: SupportedLanguage| self.has_adapter(l) == old(self).has_adapter(l) by {
                if l.ordinal() != idx {
                    assert(self.adapters@[l.ordinal()] == before[l.ordinal()]);
                }
            }
        }
        let tree = match parsed {
            Some(t) => t,
            None => {
                return Err(ParseError::ParseFailure);
            },
        };
        let mut units = Self::extract_kind(lang, UnitKind::Function, &tree, source_code);
        let mut classes = Self::extract_kind(lang, UnitKind::Class, &tree, source_code);
        let ghost functions = units@;
        let ghost class_units = classes@;
        units.append(&mut classes);
        proof {
            assert(unit_views(units@) =~= unit_views(functions) + unit_views(class_units));
        }
        Ok(
            ParseResult {
                file_path: file_path.to_owned(),
                language: lang.label(),
                units,
                parse_time: elapsed_since(&start),
            },
        )
    }
}

} // verus!
