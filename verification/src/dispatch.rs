//! The dispatcher and the batch orchestrator.

use crate::adapter::{code_extraction, language_grammar, CodeParser};
use crate::config::{config_extraction, parse_config_file};
use crate::error::{ParseError, ParseErrorView};
use crate::extension::{extension_of, file_extension};
use crate::grammar::grammar_accepted;
use crate::language::SupportedLanguage;
use crate::outcome::{batch_outcome, file_outcome, result_views};
use crate::parallel::dispatch_all;
use crate::route::{borrowed, route, route_choice, Route};
use crate::unit::{spans_ordered, ParseResult, ResultView};
use vstd::prelude::*;

verus! {

/// What the extraction of one file gives. A file whose extension is that
/// of a configuration format goes to the section extractor; every other
/// file goes to the structural extractor, which has a parser for each
/// language whose grammar the engine accepts.
pub open spec fn dispatched(path: Seq<char>, source: Seq<char>) -> Result<ResultView, ParseErrorView> {
    match route_choice(extension_of(path)) {
        Ok(Route::Config(_)) => config_extraction(path, source),
        _ => code_extraction(
            |lang: SupportedLanguage| grammar_accepted(language_grammar(lang)),
            path,
            source,
        ),
    }
}

/// What the extraction of a batch gives: the results of all files in the
/// order of the files, or, where a file fails, the failure of the first
/// file that does.
pub open spec fn batch_dispatched(files: Seq<(Seq<char>, Seq<char>)>) -> Result<
    Seq<ResultView>,
    ParseErrorView,
>
    decreases files.len(),
{
    if files.len() == 0 {
        Ok(Seq::empty())
    } else {
        match batch_dispatched(files.drop_last()) {
            Err(e) => Err(e),
            Ok(results) => match dispatched(files.last().0, files.last().1) {
                Ok(res) => Ok(results.push(res)),
                Err(e) => Err(e),
            },
        }
    }
}

/// The views of a list of files, path and content.
pub open spec fn file_views(files: Seq<(String, String)>) -> Seq<(Seq<char>, Seq<char>)> {
    files.map_values(|f: (String, String)| (f.0@, f.1@))
}

/// A batch succeeds exactly when each of its files does, and then holds one
/// result for each file, in order; a batch that fails reports the failure
/// of one of its files.
pub proof fn lemma_batch_all_or_nothing(files: Seq<(Seq<char>, Seq<char>)>)
    ensures
        batch_dispatched(files) is Ok <==> forall|i: int|
            0 <= i < files.len() ==> dispatched(#[trigger] files[i].0, files[i].1) is Ok,
        batch_dispatched(files) matches Ok(results) ==> results.len() == files.len() && forall|i: int|
            0 <= i < files.len() ==> Ok::<ResultView, ParseErrorView>(#[trigger] results[i])
                == dispatched(files[i].0, files[i].1),
        batch_dispatched(files) matches Err(e) ==> exists|i: int|
            0 <= i < files.len() && dispatched(#[trigger] files[i].0, files[i].1) == Err::<
                ResultView,
                ParseErrorView,
            >(e),
    decreases files.len(),
{
    if files.len() > 0 {
        let front = files.drop_last();
        let last = files.len() - 1;
        lemma_batch_all_or_nothing(front);
        assert forall|i: int| 0 <= i < front.len() implies front[i] == files[i] by {}
        match batch_dispatched(front) {
            Err(e) => {
                let i = choose|i: int|
                    0 <= i < front.len() && dispatched(#[trigger] front[i].0, front[i].1) == Err::<
                        ResultView,
                        ParseErrorView,
                    >(e);
                assert(front[i] == files[i]);
                assert(dispatched(files[i].0, files[i].1) is Err);
            },
            Ok(results) => {
                assert forall|i: int| 0 <= i < front.len() implies dispatched(
                    #[trigger] files[i].0,
                    files[i].1,
                ) is Ok by {
                    assert(front[i] == files[i]);
                }
                match dispatched(files.last().0, files.last().1) {
                    Ok(res) => {
                        assert forall|i: int| 0 <= i < files.len() implies Ok::<
                            ResultView,
                            ParseErrorView,
                        >(#[trigger] results.push(res)[i]) == dispatched(files[i].0, files[i].1) by {
                            if i < last {
                                assert(front[i] == files[i]);
                            }
                        }
                    },
                    Err(e) => {
                        assert(dispatched(files[last].0, files[last].1) == Err::<
                            ResultView,
                            ParseErrorView,
                        >(e));
                    },
                }
            },
        }
    }
}

/// Extracts the semantic units of one file, given as borrowed text.
pub fn dispatch(file_path: &str, source_code: &str) -> (outcome: Result<ParseResult, ParseError>)
    ensures
        file_outcome(outcome) == dispatched(file_path@, source_code@),
        outcome matches Ok(res) ==> spans_ordered(res@.units),
        file_outcome(outcome) != Err::<ResultView, ParseErrorView>(ParseErrorView::ParseFailure),
{
    let extension = file_extension(file_path);
    match route(borrowed(&extension)) {
        Ok(Route::Config(_)) => parse_config_file(file_path, source_code),
        Ok(Route::Code(_)) => {
            let mut parser = CodeParser::new();
            parser.parse_file(file_path, source_code)
        },
        Err(e) => Err(e),
    }
}

/// Extracts the semantic units of one file.
///
/// A file whose extension is `json`, `yaml`, `yml` or `toml` is read as
/// configuration; any other file as source code of the language that its
/// extension names. A path without an extension is refused.
pub fn parse_source_file(file_path: String, source_code: String) -> (outcome: Result<
    ParseResult,
    ParseError,
>)
    ensures
        file_outcome(outcome) == dispatched(file_path@, source_code@),
        outcome matches Ok(res) ==> spans_ordered(res@.units),
        file_outcome(outcome) != Err::<ResultView, ParseErrorView>(ParseErrorView::ParseFailure),
{
    dispatch(file_path.as_str(), source_code.as_str())
}

/// Gathers the outcomes of a batch: all results, in order, or the failure
/// of the first file that failed.
pub fn gather(outcomes: Vec<Result<ParseResult, ParseError>>) -> (outcome: Result<
    Vec<ParseResult>,
    ParseError,
>)
    ensures
        match outcome {
            Ok(results) => results@.len() == outcomes@.len() && forall|i: int|
                0 <= i < outcomes@.len() ==> outcomes@[i] == Ok::<ParseResult, ParseError>(
                    #[trigger] results@[i],
                ),
            Err(e) => exists|k: int|
                0 <= k < outcomes@.len() && outcomes@[k] == Err::<ParseResult, ParseError>(e)
                    && forall|i: int| 0 <= i < k ==> (#[trigger] outcomes@[i]) is Ok,
        },
{
    let mut results: Vec<ParseResult> = Vec::new();
    let ghost all = outcomes@;
    for item in it: outcomes
        invariant
            it.seq() == all,
            all == outcomes@,
            results@.len() == it.index(),
            forall|i: int|
                0 <= i < it.index() ==> all[i] == Ok::<ParseResult, ParseError>(#[trigger] results@[i]),
    {
        match item {
            Ok(res) => {
                results.push(res);
            },
            Err(e) => {
                let ghost k = it.index() as int;
                assert(0 <= k < all.len() && all[k] == Err::<ParseResult, ParseError>(e));
                assert forall|i: int| 0 <= i < k implies (#[trigger] all[i]) is Ok by {
                    assert(all[i] == Ok::<ParseResult, ParseError>(results@[i]));
                }
                return Err(e);
            },
        }
    }
    Ok(results)
}

/// Extracts the semantic units of a batch of files, each given as path and
/// content. The files are worked on independently of each other. The batch
/// is all or nothing: where every file succeeds the results come back in
/// the order of the files; where one fails the batch fails with the failure
/// of the first such file, and no result is handed out.
pub fn batch_parse_files(files: Vec<(String, String)>) -> (outcome: Result<Vec<ParseResult>, ParseError>)
    ensures
        batch_outcome(outcome) == batch_dispatched(file_views(files@)),
        outcome matches Ok(results) ==> forall|i: int|
            0 <= i < results.len() ==> spans_ordered((#[trigger] results[i])@.units),
{
    let outcomes = dispatch_all(&files);
    let ghost each = outcomes@;
    let outcome = gather(outcomes);
    proof {
        lemma_gathered(file_views(files@), each, outcome);
    }
    outcome
}

/// What `gather` makes of the outcomes of the files of a batch is what the
/// batch owes.
proof fn lemma_gathered(
    files: Seq<(Seq<char>, Seq<char>)>,
    each: Seq<Result<ParseResult, ParseError>>,
    outcome: Result<Vec<ParseResult>, ParseError>,
)
    requires
        each.len() == files.len(),
        forall|i: int|
            0 <= i < files.len() ==> file_outcome(#[trigger] each[i]) == dispatched(
                files[i].0,
                files[i].1,
            ),
        match outcome {
            Ok(results) => results@.len() == each.len() && forall|i: int|
                0 <= i < each.len() ==> each[i] == Ok::<ParseResult, ParseError>(#[trigger] results@[i]),
            Err(e) => exists|k: int|
                0 <= k < each.len() && each[k] == Err::<ParseResult, ParseError>(e) && forall|i: int|
                    0 <= i < k ==> (#[trigger] each[i]) is Ok,
        },
    ensures
        batch_outcome(outcome) == batch_dispatched(files),
    decreases files.len(),
{
    match outcome {
        Ok(results) => {
            assert forall|i: int| 0 <= i < files.len() implies dispatched(
                #[trigger] files[i].0,
                files[i].1,
            ) is Ok && dispatched(files[i].0, files[i].1)->Ok_0 == result_views(results@)[i] by {
                assert(each[i] == Ok::<ParseResult, ParseError>(results@[i]));
                assert(file_outcome(each[i]) == Ok::<ResultView, ParseErrorView>(results@[i]@));
            }
            lemma_batch_all_or_nothing(files);
            let got = batch_dispatched(files)->Ok_0;
            assert(got =~= result_views(results@)) by {
                assert forall|i: int| 0 <= i < got.len() implies got[i] == result_views(results@)[i] by {
                    assert(Ok::<ResultView, ParseErrorView>(got[i]) == dispatched(
                        files[i].0,
                        files[i].1,
                    ));
                }
            }
        },
        Err(e) => {
            let k = choose|k: int|
                0 <= k < each.len() && each[k] == Err::<ParseResult, ParseError>(e) && forall|i: int|
                    0 <= i < k ==> (#[trigger] each[i]) is Ok;
            assert forall|i: int| 0 <= i < k implies dispatched(#[trigger] files[i].0, files[i].1) is Ok by {
                assert(each[i] is Ok);
                assert(file_outcome(each[i]) is Ok);
            }
            assert(file_outcome(each[k]) == Err::<ResultView, ParseErrorView>(e@));
            lemma_first_failure(files, k);
        },
    }
}

/// A batch whose first failing file is the one at `k` fails with the failure
/// of that file.
proof fn lemma_first_failure(files: Seq<(Seq<char>, Seq<char>)>, k: int)
    requires
        0 <= k < files.len(),
        dispatched(files[k].0, files[k].1) is Err,
        forall|i: int| 0 <= i < k ==> dispatched(#[trigger] files[i].0, files[i].1) is Ok,
    ensures
        batch_dispatched(files) == Err::<Seq<ResultView>, ParseErrorView>(
            dispatched(files[k].0, files[k].1)->Err_0,
        ),
    decreases files.len(),
{
    let front = files.drop_last();
    if k == files.len() - 1 {
        assert forall|i: int| 0 <= i < front.len() implies dispatched(
            #[trigger] front[i].0,
            front[i].1,
        ) is Ok by {
            assert(front[i] == files[i]);
            assert(dispatched(files[i].0, files[i].1) is Ok);
        }
        lemma_batch_all_or_nothing(front);
    } else {
        assert(front[k] == files[k]);
        assert forall|i: int| 0 <= i < k implies dispatched(#[trigger] front[i].0, front[i].1) is Ok by {
            assert(front[i] == files[i]);
            assert(dispatched(files[i].0, files[i].1) is Ok);
        }
        lemma_first_failure(front, k);
    }
}

} // verus!
