//! Paths of files. The library carries a path from the message that brings it
//! to the state and to the command that uses it; it reads a path only to show
//! it and to find the extension of the file.

use std::path::PathBuf;
use vstd::prelude::*;

verus! {

/// `std::path::PathBuf`, an owned path in the platform's own encoding.
#[verifier::external_type_specification]
#[verifier::external_body]
pub struct ExPathBuf(std::path::PathBuf);

/// `PathBuf::clone`: the copy is the same path.
pub assume_specification[ <PathBuf as Clone>::clone ](path: &PathBuf) -> (r: PathBuf)
    ensures
        r == *path,
;

/// What `Path::to_str` gives for a path: the path as text if it is valid
/// Unicode, nothing if it is not. It depends on the path alone.
pub uninterp spec fn path_str(path: PathBuf) -> Option<Seq<char>>;

/// The text of a path that may be missing.
pub open spec fn optional_path_str(path: Option<PathBuf>) -> Option<Seq<char>> {
    match path {
        Some(path) => path_str(path),
        None => None,
    }
}

/// `Path::to_str`: the path as text, if it is valid Unicode. The result is
/// what `path_str` names; nothing more is claimed of the text.
#[verifier::external_body]
pub(crate) fn path_text(path: &PathBuf) -> (r: Option<&str>)
    ensures
        match r {
            Some(text) => path_str(*path) == Some(text@),
            None => path_str(*path) is None,
        },
{
    path.to_str()
}

/// `Path::extension`: the part of the file name after its last dot, if the
/// path has a file name with one, as a path of its own. How a path is split
/// into its parts depends on the platform, so nothing is claimed of the
/// result.
#[verifier::external_body]
pub(crate) fn path_extension(path: &PathBuf) -> (r: Option<PathBuf>) {
    match path.extension() {
        Some(extension) => Some(PathBuf::from(extension)),
        None => None,
    }
}

} // verus!
