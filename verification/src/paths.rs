//! What the standard library computes on paths. How a path splits into
//! components is the standard library's matter; the results are named here,
//! and the contracts that rest on them speak of the names.

use crate::text::text_of;
use vstd::prelude::*;

verus! {

/// What `Path::parent` of the standard library gives for the path with these
/// characters: the path without its last component, if it has one.
pub uninterp spec fn path_parent(path: Seq<char>) -> Option<Seq<char>>;

/// What `Path::file_stem` of the standard library gives for the path with
/// these characters: the last component without its extension, if the path
/// has a last component.
pub uninterp spec fn path_stem(path: Seq<char>) -> Option<Seq<char>>;

/// `Path::parent` of the standard library. Taken on trust of it: it reads
/// nothing but the characters of the path, so that the same path always has
/// the same parent; and the empty path has none.
#[verifier::external_body]
pub(crate) fn parent_of(path: &str) -> (parent: Option<String>)
    ensures
        text_of(parent) == path_parent(path@),
        path@.len() == 0 ==> parent is None,
{
    std::path::Path::new(path).parent().map(|p| p.to_string_lossy().into_owned())
}

/// `Path::file_stem` of the standard library. Taken on trust of it: it reads
/// nothing but the characters of the path, so that the same path always has
/// the same stem.
#[verifier::external_body]
pub(crate) fn stem_of(path: &str) -> (stem: Option<String>)
    ensures
        text_of(stem) == path_stem(path@),
{
    std::path::Path::new(path).file_stem().map(|s| s.to_string_lossy().into_owned())
}

} // verus!
