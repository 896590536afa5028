//! File paths relative to a base directory.
use vstd::prelude::*;

verus! {

/// What `std::path::Path::strip_prefix` gives for `path` and `base` on this
/// build's target platform: the rest of `path` after the whole components
/// of `base`, or `None` when `base` is not a component prefix of `path`.
pub uninterp spec fn path_without_prefix(path: Seq<char>, base: Seq<char>) -> Option<Seq<char>>;

pub open spec fn opt_string_view(r: Option<String>) -> Option<Seq<char>> {
    match r {
        Some(s) => Some(s@),
        None => None,
    }
}

/// Calls `std::path::Path::strip_prefix` and converts the rest to a string.
/// The result is named, not described: it is a function of the two paths.
#[verifier::external_body]
pub(crate) fn strip_path_prefix(path: &str, base: &str) -> (r: Option<String>)
    ensures
        opt_string_view(r) == path_without_prefix(path@, base@),
{
    std::path::Path::new(path).strip_prefix(base).ok().map(|p| p.to_string_lossy().into_owned())
}

/// `path` relative to `base` when `base` is one of its ancestors, else
/// `path` itself.
pub open spec fn relative_or_whole(path: Seq<char>, base: Seq<char>) -> Seq<char> {
    match path_without_prefix(path, base) {
        Some(p) => p,
        None => path,
    }
}

/// `path` relative to `base` when `base` is one of its ancestors, else
/// `path` itself.
pub fn relative_to(path: &str, base: &str) -> (r: String)
    ensures
        r@ == relative_or_whole(path@, base@),
{
    match strip_path_prefix(path, base) {
        Some(p) => p,
        None => path.to_owned(),
    }
}

/// What `std::path::Path::join` gives for `base` and `path` on this build's
/// target platform: `path` itself when it is absolute, else `path` appended
/// to `base` with a separator between them.
pub uninterp spec fn path_joined(base: Seq<char>, path: Seq<char>) -> Seq<char>;

/// Calls `std::path::Path::join` and converts the result to a string. The
/// result is named, not described: it is a function of the two paths.
#[verifier::external_body]
pub(crate) fn join_path(base: &str, path: &str) -> (r: String)
    ensures
        r@ == path_joined(base@, path@),
{
    std::path::Path::new(base).join(path).to_string_lossy().into_owned()
}

} // verus!
