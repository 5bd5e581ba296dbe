//! What the library asks of `std::path`.
//!
//! Paths are held as strings. How a path splits into components is left to
//! the standard library: its answers are named here, and the functions that
//! make the calls are trusted to return them.

use vstd::prelude::*;

verus! {

/// Whether `std::path::Path` holds the paths `a` and `b` to be equal, on
/// the target that the library is compiled for.
pub uninterp spec fn path_eq(a: Seq<char>, b: Seq<char>) -> bool;

/// The parent of `path` as `std::path::Path::parent` gives it, on the target
/// that the library is compiled for; `None` where the path has none.
pub uninterp spec fn path_parent(path: Seq<char>) -> Option<Seq<char>>;

/// Compares two paths with `==` of `std::path::Path`, which compares them
/// component by component. Trusted: the result is what [`path_eq`] names.
#[verifier::external_body]
pub(crate) fn same_path(a: &str, b: &str) -> (r: bool)
    ensures
        r == path_eq(a@, b@),
{
    std::path::Path::new(a) == std::path::Path::new(b)
}

/// Calls `std::path::Path::parent` on `path` and hands the parent back as a
/// string. Trusted: the result is what [`path_parent`] names.
#[verifier::external_body]
pub(crate) fn parent_dir(path: &str) -> (r: Option<String>)
    ensures
        r.deep_view() == path_parent(path@),
{
    match std::path::Path::new(path).parent() {
        Some(dir) => Some(dir.display().to_string()),
        None => None,
    }
}

} // verus!
