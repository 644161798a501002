//! Views of the outcomes that the extraction functions return.

use crate::error::{ParseError, ParseErrorView};
use crate::unit::{unit_views, ParseResult, ResultView, SemanticUnit, UnitView};
use vstd::prelude::*;

verus! {

/// The view of an outcome that holds units.
pub open spec fn units_outcome(outcome: Result<Vec<SemanticUnit>, ParseError>) -> Result<
    Seq<UnitView>,
    ParseErrorView,
> {
    match outcome {
        Ok(units) => Ok(unit_views(units@)),
        Err(e) => Err(e@),
    }
}

/// The view of an outcome that holds the result for one file.
pub open spec fn file_outcome(outcome: Result<ParseResult, ParseError>) -> Result<
    ResultView,
    ParseErrorView,
> {
    match outcome {
        Ok(res) => Ok(res@),
        Err(e) => Err(e@),
    }
}

/// The views of a list of results, in order.
pub open spec fn result_views(results: Seq<ParseResult>) -> Seq<ResultView> {
    results.map_values(|r: ParseResult| r@)
}

/// The view of an outcome that holds the results for a batch of files.
pub open spec fn batch_outcome(outcome: Result<Vec<ParseResult>, ParseError>) -> Result<
    Seq<ResultView>,
    ParseErrorView,
> {
    match outcome {
        Ok(results) => Ok(result_views(results@)),
        Err(e) => Err(e@),
    }
}

} // verus!
