//! The parts of `std::path` the library relies on. Path syntax (separators,
//! `.` components, trailing slashes, leading-dot names) is std's, so these
//! functions call it rather than re-deriving it; each result is named below
//! and the rest of the library is verified against those names.

use crate::text::{lower_seq, to_lower};
use vstd::prelude::*;

verus! {

/// What `Path::parent` returns for `path`.
pub uninterp spec fn path_parent_of(path: Seq<char>) -> Option<Seq<char>>;

/// What `Path::file_stem` returns for `path`.
pub uninterp spec fn path_file_stem_of(path: Seq<char>) -> Option<Seq<char>>;

/// What `Path::extension` returns for `path`.
pub uninterp spec fn path_extension_of(path: Seq<char>) -> Option<Seq<char>>;

/// What `Path::join` returns for `base` joined with `name`.
pub uninterp spec fn path_join_of(base: Seq<char>, name: Seq<char>) -> Seq<char>;

/// Whether `Path`'s `==` holds between `a` and `b` (component-wise equality).
pub uninterp spec fn path_eq_of(a: Seq<char>, b: Seq<char>) -> bool;

/// Calls `std::path::Path::parent`. Claims only that the result is the one
/// `path_parent_of` names for this path; nothing about which path that is.
#[verifier::external_body]
pub fn path_parent(path: &str) -> (r: Option<String>)
    ensures
        r.deep_view() == path_parent_of(path@),
{
    std::path::Path::new(path).parent().map(|p| p.to_string_lossy().into_owned())
}

/// Calls `std::path::Path::file_stem`. Claims only that the result is the one
/// `path_file_stem_of` names for this path.
#[verifier::external_body]
pub fn path_file_stem(path: &str) -> (r: Option<String>)
    ensures
        r.deep_view() == path_file_stem_of(path@),
{
    std::path::Path::new(path).file_stem().map(|s| s.to_string_lossy().into_owned())
}

/// Calls `std::path::Path::extension`. Claims only that the result is the one
/// `path_extension_of` names for this path.
#[verifier::external_body]
pub fn path_extension(path: &str) -> (r: Option<String>)
    ensures
        r.deep_view() == path_extension_of(path@),
{
    std::path::Path::new(path).extension().map(|e| e.to_string_lossy().into_owned())
}

/// Calls `std::path::Path::join`. Claims only that the result is the one
/// `path_join_of` names for these arguments.
#[verifier::external_body]
pub fn path_join(base: &str, name: &str) -> (r: String)
    ensures
        r@ == path_join_of(base@, name@),
{
    std::path::Path::new(base).join(name).to_string_lossy().into_owned()
}

/// Compares two paths with `Path`'s `==`. Claims only that the answer is the
/// one `path_eq_of` names for these arguments.
#[verifier::external_body]
pub fn path_eq(a: &str, b: &str) -> (r: bool)
    ensures
        r == path_eq_of(a@, b@),
{
    std::path::Path::new(a) == std::path::Path::new(b)
}

/// The lower-cased extension of `path`, or empty when it has none.
pub open spec fn ext_lower(path: Seq<char>) -> Seq<char> {
    match path_extension_of(path) {
        Some(e) => lower_seq(e),
        None => Seq::<char>::empty(),
    }
}

/// The lower-cased extension of `path` (`""` when there is none).
pub fn ext_of(path: &str) -> (r: Vec<char>)
    ensures
        r@ == ext_lower(path@),
{
    match path_extension(path) {
        Some(e) => to_lower(e.as_str()),
        None => Vec::new(),
    }
}

} // verus!
