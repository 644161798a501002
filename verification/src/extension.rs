//! The extension of a file path.

use crate::text::text_view;
use vstd::prelude::*;

verus! {

/// The extension of the file that `path` names, without its dot, by the
/// path rules of the platform; `None` where the path names no file or the
/// file's name has no extension.
pub uninterp spec fn extension_of(path: Seq<char>) -> Option<Seq<char>>;

/// `std::path::Path::extension` on `path`, as a string: the result is the
/// extension of `path`.
#[verifier::external_body]
pub(crate) fn file_extension(path: &str) -> (ext: Option<String>)
    ensures
        text_view(ext) == extension_of(path@),
{
    std::path::Path::new(path).extension().and_then(|e| e.to_str()).map(str::to_owned)
}

} // verus!
