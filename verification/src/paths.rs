//! File system paths as the build uses them.
//!
//! Nothing inside a `PathBuf` can be seen in a contract. What this crate needs of one is
//! the text that it displays as, and that is what contracts speak of. Joining and taking the parent are
//! left to std, which knows the platform's separators and roots; their results have names
//! here, and nothing is claimed of them but that the same texts give the same text.

use std::path::PathBuf;
use vstd::prelude::*;

verus! {

#[verifier::external_type_specification]
#[verifier::external_body]
pub struct ExPathBuf(PathBuf);

/// The text that `Path::display` shows for a path: the path itself where it is valid
/// Unicode, which every path made from a string is.
pub uninterp spec fn path_text(path: PathBuf) -> Seq<char>;

/// The text of the path that `Path::join` builds from a base path and one more part. It
/// follows the rules of the platform: its separator, and a part that is absolute takes
/// the place of the base.
pub uninterp spec fn joined_text(base: Seq<char>, part: Seq<char>) -> Seq<char>;

/// The text of the path that `Path::parent` gives for a path: the path without its last
/// component, or nothing where the path is empty or ends in a root.
pub uninterp spec fn parent_text(path: Seq<char>) -> Option<Seq<char>>;

/// `PathBuf::from` on a string: the path displays as the string it was made from.
#[verifier::external_body]
pub(crate) fn path_from_str(text: &str) -> (path: PathBuf)
    ensures
        path_text(path) == text@,
{
    PathBuf::from(text)
}

/// `Path::join`: the base with the part adjoined. What the result displays as depends
/// only on what the base displays as and on the part.
#[verifier::external_body]
pub(crate) fn join_path(base: &PathBuf, part: &str) -> (path: PathBuf)
    ensures
        path_text(path) == joined_text(path_text(*base), part@),
{
    base.join(part)
}

/// `Path::parent`: the path without its last component, if it has one. Whether there is
/// a parent, and what it displays as, depends only on what the path displays as.
#[verifier::external_body]
pub(crate) fn parent_dir(path: &PathBuf) -> (parent: Option<PathBuf>)
    ensures
        match parent {
            Some(dir) => parent_text(path_text(*path)) == Some(path_text(dir)),
            None => parent_text(path_text(*path)) is None,
        },
{
    match path.parent() {
        Some(dir) => Some(dir.to_path_buf()),
        None => None,
    }
}

/// `Path::display`, written into a string.
#[verifier::external_body]
pub(crate) fn display_path(path: &PathBuf) -> (text: String)
    ensures
        text@ == path_text(*path),
{
    format!("{}", path.display())
}

} // verus!
