//! Paths: the directory and the file name of a path, and the path that a
//! renamed file moves to.
//!
//! How a path falls into components is left to `std::path`, which goes by the
//! text of the path alone, under the rules of the platform that the library is
//! built for; nothing on disk is looked at. The three functions that ask it
//! are trusted, and what they return goes by the names `parent_of`,
//! `file_name_of` and `joined`. A path comes in as text and each part of it
//! goes out as text again, so nothing is lost on the way back to a `String`.

use vstd::prelude::*;
use vstd::string::*;
use crate::filename::{new_file_name, spliced_name};

verus! {

/// What `std::path::Path::parent` makes of `path`: the path without its final
/// component, or `None` where it has none to drop.
pub uninterp spec fn parent_of(path: Seq<char>) -> Option<Seq<char>>;

/// What `std::path::Path::file_name` makes of `path`: its final component, or
/// `None` where the path does not end in a name.
pub uninterp spec fn file_name_of(path: Seq<char>) -> Option<Seq<char>>;

/// What `std::path::Path::join` makes of a directory and a name.
pub uninterp spec fn joined(parent: Seq<char>, name: Seq<char>) -> Seq<char>;

/// Trusted: calls `std::path::Path::parent`. The contract gives the result
/// the name `parent_of` and claims one thing more, which the documentation
/// of `parent` states: the empty path has no parent.
#[verifier::external_body]
fn path_parent(path: &str) -> (result: Option<String>)
    ensures
        result.deep_view() == parent_of(path@),
        path@.len() == 0 ==> result is None,
{
    match std::path::Path::new(path).parent() {
        Some(parent) => Some(parent.to_string_lossy().into_owned()),
        None => None,
    }
}

/// Trusted: calls `std::path::Path::file_name`. The contract gives the result
/// the name `file_name_of` and claims nothing else of it.
#[verifier::external_body]
fn path_file_name(path: &str) -> (result: Option<String>)
    ensures
        result.deep_view() == file_name_of(path@),
{
    match std::path::Path::new(path).file_name() {
        Some(name) => Some(name.to_string_lossy().into_owned()),
        None => None,
    }
}

/// Trusted: calls `std::path::Path::join`. The contract gives the result the
/// name `joined` and claims nothing else of it.
#[verifier::external_body]
fn path_join(parent: &str, name: &str) -> (result: String)
    ensures
        result@ == joined(parent@, name@),
{
    std::path::Path::new(parent).join(name).to_string_lossy().into_owned()
}

/// The path that the file at `path` moves to: its directory joined with its
/// new name. A path without a directory or without a file name has none.
pub open spec fn target_of(path: Seq<char>, prefix: Seq<char>, suffix: Seq<char>) -> Option<
    Seq<char>,
> {
    match (parent_of(path), file_name_of(path)) {
        (Some(parent), Some(name)) => Some(joined(parent, spliced_name(name, prefix, suffix))),
        _ => None,
    }
}

/// Places the renamed file: `file_name` with `prefix` and `suffix` applied,
/// in the directory `parent`.
pub fn target_in(parent: &str, file_name: &str, prefix: &str, suffix: &str) -> (result: String)
    ensures
        result@ == joined(parent@, spliced_name(file_name@, prefix@, suffix@)),
{
    let name = new_file_name(file_name, prefix, suffix);
    path_join(parent, name.as_str())
}

/// Computes where the file at `path` moves to, or `None` for a path that has
/// no directory or no file name. The empty path is such a path.
pub fn rename_target(path: &str, prefix: &str, suffix: &str) -> (result: Option<String>)
    ensures
        result.deep_view() == target_of(path@, prefix@, suffix@),
        path@.len() == 0 ==> result is None,
{
    match (path_parent(path), path_file_name(path)) {
        (Some(parent), Some(file_name)) => {
            Some(target_in(parent.as_str(), file_name.as_str(), prefix, suffix))
        },
        _ => None,
    }
}

} // verus!
