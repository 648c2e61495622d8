//! What the `camino` crate knows of UTF-8 paths: when two texts name the same
//! path, and which part of a path is the file's own name.

use vstd::prelude::*;

verus! {

/// Whether `camino` takes two texts for the same path: it compares them
/// component by component, so that `a//b` and `a/b` are the same.
pub uninterp spec fn same_path(a: Seq<char>, b: Seq<char>) -> bool;

/// The last component of a path as `camino::Utf8Path::file_name` gives it;
/// `None` for a path that ends in `..`, for the root and for the empty path.
pub uninterp spec fn file_name_of(path: Seq<char>) -> Option<Seq<char>>;

/// Whether two texts name the same path: equal texts always do, and beyond
/// that `camino` decides.
pub open spec fn names_same_path(a: Seq<char>, b: Seq<char>) -> bool {
    a == b || same_path(a, b)
}

/// Compares two paths with the `==` of `camino::Utf8Path`. The answer depends
/// on the two texts alone, and a text always names the same path as itself.
#[verifier::external_body]
pub(crate) fn utf8_path_eq(a: &str, b: &str) -> (r: bool)
    ensures
        r == same_path(a@, b@),
        a@ == b@ ==> r,
{
    camino::Utf8Path::new(a) == camino::Utf8Path::new(b)
}

/// Calls `camino::Utf8Path::file_name` and copies the name it returns.
#[verifier::external_body]
pub(crate) fn utf8_file_name(path: &str) -> (r: Option<String>)
    ensures
        r is Some <==> file_name_of(path@) is Some,
        r matches Some(name) ==> file_name_of(path@) == Some(name@),
{
    match camino::Utf8Path::new(path).file_name() {
        Some(name) => Some(name.to_owned()),
        None => None,
    }
}

} // verus!
