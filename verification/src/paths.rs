//! File paths, carried through as opaque values, and requests to write files.

use vstd::prelude::*;
use std::path::PathBuf;

verus! {

/// `std::path::PathBuf`.
#[verifier::external_type_specification]
#[verifier::external_body]
pub struct ExPathBuf(PathBuf);

/// The text holds no path separator, neither `/` nor `\`.
pub open spec fn separator_free(text: Seq<char>) -> bool {
    forall|i: int| 0 <= i < text.len() ==> text[i] != '/' && text[i] != '\\'
}

/// The path that is `path` with its extension set to `extension`: the
/// extension replaces the one `path` had, or is added where it had none.
pub uninterp spec fn path_with_extension(path: PathBuf, extension: Seq<char>) -> PathBuf;

/// A copy of `path` whose extension is `extension`: `Path::with_extension`.
///
/// The result is a function of the path and the extension alone. The call
/// panics on an extension that holds a path separator, so none is admitted.
#[verifier::external_body]
pub(crate) fn with_extension(path: &PathBuf, extension: &str) -> (sanitised: PathBuf)
    requires
        separator_free(extension@),
    ensures
        sanitised == path_with_extension(*path, extension@),
{
    path.with_extension(extension)
}

/// A file to write: where, and exactly what.
#[derive(Debug)]
pub struct WriteRequest {
    pub path: PathBuf,
    pub contents: String,
}

} // verus!
