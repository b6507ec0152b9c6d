//! File-system paths as text, taken apart and put together by `std::path`.
//!
//! Path syntax is that of the target the crate is built for; each operation below is a function
//! of its arguments there, and is named rather than restated.

use vstd::prelude::*;

verus! {

/// The text an optional string holds, if any.
pub open spec fn text_option(o: Option<String>) -> Option<Seq<char>> {
    match o {
        Some(s) => Some(s@),
        None => None,
    }
}

/// What `Path::strip_prefix` leaves of `path` once `base` is taken off the front, as text;
/// `None` when `base` is not a prefix of `path`.
pub uninterp spec fn path_strip_prefix(path: Seq<char>, base: Seq<char>) -> Option<Seq<char>>;

/// What `Path::parent` gives for `path`, as text; `None` for a root or an empty path.
pub uninterp spec fn path_parent(path: Seq<char>) -> Option<Seq<char>>;

/// What `Path::file_name` gives for `path`, as text; `None` when it ends in `..` or is a root.
pub uninterp spec fn path_file_name(path: Seq<char>) -> Option<Seq<char>>;

/// What `Path::join` gives for `base` extended by `part`, as text.
pub uninterp spec fn path_join(base: Seq<char>, part: Seq<char>) -> Seq<char>;

/// Calls `std::path::Path::strip_prefix`. Trusted: the result is the named one; the
/// conversion back to text is exact because the input was text.
#[verifier::external_body]
pub(crate) fn strip_path_prefix(path: &str, base: &str) -> (relative: Option<String>)
    ensures
        text_option(relative) == path_strip_prefix(path@, base@),
{
    match std::path::Path::new(path).strip_prefix(base) {
        Ok(rest) => Some(rest.to_string_lossy().into_owned()),
        Err(_) => None,
    }
}

/// Calls `std::path::Path::parent`. Trusted: the result is the named one.
#[verifier::external_body]
pub(crate) fn parent_of(path: &str) -> (parent: Option<String>)
    ensures
        text_option(parent) == path_parent(path@),
{
    match std::path::Path::new(path).parent() {
        Some(p) => Some(p.to_string_lossy().into_owned()),
        None => None,
    }
}

/// Calls `std::path::Path::file_name`. Trusted: the result is the named one.
#[verifier::external_body]
pub(crate) fn file_name_of(path: &str) -> (name: Option<String>)
    ensures
        text_option(name) == path_file_name(path@),
{
    match std::path::Path::new(path).file_name() {
        Some(n) => Some(n.to_string_lossy().into_owned()),
        None => None,
    }
}

/// Calls `std::path::Path::join`. Trusted: the result is the named one.
#[verifier::external_body]
pub(crate) fn join_path(base: &str, part: &str) -> (joined: String)
    ensures
        joined@ == path_join(base@, part@),
{
    std::path::Path::new(base).join(part).to_string_lossy().into_owned()
}

} // verus!
