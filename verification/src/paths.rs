//! Names derived from file paths.
//!
//! Paths are taken apart by the standard library and by `pathdiff`, under the
//! path syntax of the platform that the crate is built for. Their results are
//! named here and not restated.

use vstd::prelude::*;

verus! {

/// What `pathdiff::diff_paths` returns for `path` seen from `base`: the
/// relative path that leads from `base` to `path`, where there is one.
pub uninterp spec fn relative_to(path: Seq<char>, base: Seq<char>) -> Option<Seq<char>>;

/// What `std::path::Path::file_name` returns: the final component of the
/// path, where it has one.
pub uninterp spec fn final_component(path: Seq<char>) -> Option<Seq<char>>;

/// What `std::path::Path::file_stem` returns: the final component of the
/// path without its extension, where the path has a final component.
pub uninterp spec fn stem_of(path: Seq<char>) -> Option<Seq<char>>;

/// The characters of an optional string.
pub open spec fn text_of(value: Option<String>) -> Option<Seq<char>> {
    match value {
        Some(text) => Some(text@),
        None => None,
    }
}

/// Calls `pathdiff::diff_paths(path, base)`. The contract only gives the
/// result its name: the same two paths always give the same relative path,
/// computed from their components alone, without looking at the file system.
#[verifier::external_body]
pub(crate) fn relative_path(path: &str, base: &str) -> (relative: Option<String>)
    ensures
        text_of(relative) == relative_to(path@, base@),
{
    match pathdiff::diff_paths(path, base) {
        Some(relative) => relative.into_os_string().into_string().ok(),
        None => None,
    }
}

/// Calls `std::path::Path::file_name`. The contract only gives the result its
/// name.
#[verifier::external_body]
pub(crate) fn file_name(path: &str) -> (name: Option<String>)
    ensures
        text_of(name) == final_component(path@),
{
    match std::path::Path::new(path).file_name() {
        Some(name) => name.to_os_string().into_string().ok(),
        None => None,
    }
}

/// Calls `std::path::Path::file_stem`. The contract only gives the result its
/// name.
#[verifier::external_body]
pub(crate) fn file_stem(path: &str) -> (stem: Option<String>)
    ensures
        text_of(stem) == stem_of(path@),
{
    match std::path::Path::new(path).file_stem() {
        Some(stem) => stem.to_os_string().into_string().ok(),
        None => None,
    }
}

} // verus!
