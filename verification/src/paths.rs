//! Expanding a leading `~` in a persona file's path, through `std::path`.
use vstd::prelude::*;

use crate::harbor::opt_text;

verus! {

/// What `Path::strip_prefix` leaves of the path `path` once the leading
/// components `prefix` are removed, or `None` where `path` does not begin
/// with them.
pub uninterp spec fn path_after_prefix(path: Seq<char>, prefix: Seq<char>) -> Option<Seq<char>>;

/// The path `Path::join` makes of `base` followed by `rest`.
pub uninterp spec fn path_joined(base: Seq<char>, rest: Seq<char>) -> Seq<char>;

/// Calls `Path::strip_prefix` on `path` with `prefix`. Both are texts, so the
/// remaining path is text too. The contract claims only that the outcome is
/// a function of the two (`path_after_prefix`).
#[verifier::external_body]
fn strip_path_prefix(path: &str, prefix: &str) -> (r: Option<String>)
    ensures
        opt_text(r) == path_after_prefix(path@, prefix@),
{
    match std::path::Path::new(path).strip_prefix(prefix) {
        Ok(rest) => Some(rest.to_string_lossy().into_owned()),
        Err(_) => None,
    }
}

/// Calls `Path::join` on `base` with `rest`. The contract claims only that
/// the outcome is a function of the two (`path_joined`).
#[verifier::external_body]
fn join_path(base: &str, rest: &str) -> (r: String)
    ensures
        r@ == path_joined(base@, rest@),
{
    std::path::Path::new(base).join(rest).to_string_lossy().into_owned()
}

/// A path with a leading `~` component taken as the home directory `home`;
/// other paths, and every path when no home is known, stay as they are.
pub open spec fn tilde_expanded(path: Seq<char>, home: Option<Seq<char>>) -> Seq<char> {
    match path_after_prefix(path, "~"@) {
        Some(rest) => match home {
            Some(h) => path_joined(h, rest),
            None => path,
        },
        None => path,
    }
}

/// Expands a leading `~` in `path` to `home` (the value of `$HOME`, if set).
pub fn expand_tilde(path: &str, home: Option<&str>) -> (r: String)
    ensures
        r@ == tilde_expanded(
            path@,
            match home {
                Some(h) => Some(h@),
                None => None,
            },
        ),
{
    match strip_path_prefix(path, "~") {
        Some(rest) => match home {
            Some(h) => join_path(h, rest.as_str()),
            None => String::from_str(path),
        },
        None => String::from_str(path),
    }
}

} // verus!
