//! Paths as text, and the two questions the rest of the crate asks of them:
//! what a path joined with another is, and what its final component is.
//!
//! Both are answered by `std::path`, with the path syntax of the platform;
//! the crate is meant for Unix, where links are made.

use vstd::prelude::*;

verus! {

/// The text of `base` adjoined with `rel`, as `std::path::Path::join` gives it.
pub uninterp spec fn joined_path(base: Seq<char>, rel: Seq<char>) -> Seq<char>;

/// The final component of `path`, as `std::path::Path::file_name` gives it;
/// `None` where the path has none (the root, or a path that ends in `..`).
pub uninterp spec fn final_component(path: Seq<char>) -> Option<Seq<char>>;

/// The texts of a vector of strings.
pub open spec fn texts_of(names: Seq<String>) -> Seq<Seq<char>> {
    names.map_values(|name: String| name@)
}

/// Calls `std::path::Path::join` on two paths held as text.
///
/// Trusted: the result is the text of the joined path. Both arguments are
/// UTF-8, and joining only concatenates or replaces, so the conversion back
/// to a `String` loses nothing.
#[verifier::external_body]
pub(crate) fn join_path(base: &str, rel: &str) -> (joined: String)
    ensures
        joined@ == joined_path(base@, rel@),
{
    std::path::Path::new(base).join(rel).to_string_lossy().into_owned()
}

/// Calls `std::path::Path::file_name` on a path held as text.
///
/// Trusted: the result is the final component, which is a slice of the
/// argument and so UTF-8 again.
#[verifier::external_body]
pub(crate) fn file_name_of(path: &str) -> (name: Option<String>)
    ensures
        name is Some <==> final_component(path@) is Some,
        name is Some ==> name->0@ == final_component(path@)->0,
{
    match std::path::Path::new(path).file_name() {
        Some(n) => Some(n.to_string_lossy().into_owned()),
        None => None,
    }
}

} // verus!
