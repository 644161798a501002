//! The parallel fan-out of a batch.
//!
//! The one function of this file is trusted: it hands the files of a batch
//! to `rayon`, which works on them on several threads.

use crate::dispatch::{dispatch, dispatched};
use crate::error::ParseError;
use crate::outcome::file_outcome;
use crate::unit::{spans_ordered, ParseResult};
use rayon::iter::{IntoParallelRefIterator, ParallelIterator};
use vstd::prelude::*;

verus! {

/// `par_iter`, `map` and `collect` of `rayon` over the files of a batch,
/// with [`dispatch`] as the work on each file: there is one outcome for
/// each file, in the order of the files, and each is what `dispatch` owes
/// for its file.
#[verifier::external_body]
pub(crate) fn dispatch_all(files: &Vec<(String, String)>) -> (outcomes: Vec<
    Result<ParseResult, ParseError>,
>)
    ensures
        outcomes@.len() == files@.len(),
        forall|i: int|
            0 <= i < files@.len() ==> file_outcome(#[trigger] outcomes@[i]) == dispatched(
                files@[i].0@,
                files@[i].1@,
            ),
        forall|i: int|
            0 <= i < outcomes@.len() ==> ((#[trigger] outcomes@[i]) matches Ok(res) ==> spans_ordered(
                res@.units,
            )),
{
    files.par_iter().map(|f| dispatch(f.0.as_str(), f.1.as_str())).collect()
}

} // verus!
