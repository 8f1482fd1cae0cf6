//! Path structure as the standard library parses it: components, the part
//! of a path below a root, and the extension of the file name.

use vstd::prelude::*;

verus! {

/// The text of each component of a path, in order, as `Path::components` yields them.
pub uninterp spec fn components_of(path: Seq<char>) -> Seq<Seq<char>>;

/// The part of `path` below `root`, or `None` when `root` is not a leading run
/// of `path`'s components, as `Path::strip_prefix` decides.
pub uninterp spec fn relative_to(path: Seq<char>, root: Seq<char>) -> Option<Seq<char>>;

/// The extension of the file name of `path`, as `Path::extension` finds it.
pub uninterp spec fn extension_of(path: Seq<char>) -> Option<Seq<char>>;

/// The view of an optional string.
pub open spec fn opt_text(s: Option<String>) -> Option<Seq<char>> {
    match s {
        Some(t) => Some(t@),
        None => None,
    }
}

/// The views of a sequence of strings.
pub open spec fn texts(v: Seq<String>) -> Seq<Seq<char>> {
    v.map_values(|s: String| s@)
}

/// Relies on `Path::components`: the components of `path`, each as the text
/// of `Component::as_os_str` (always valid UTF-8 for a path made from `&str`).
#[verifier::external_body]
pub(crate) fn components(path: &str) -> (r: Vec<String>)
    ensures
        texts(r@) == components_of(path@),
{
    std::path::Path::new(path).components().map(
        |c| c.as_os_str().to_string_lossy().into_owned(),
    ).collect()
}

/// Relies on `Path::strip_prefix`: the remainder of `path` below `root`, or
/// `None` where `root` is not a prefix of `path` by whole components.
#[verifier::external_body]
pub(crate) fn strip_root(path: &str, root: &str) -> (r: Option<String>)
    ensures
        opt_text(r) == relative_to(path@, root@),
{
    std::path::Path::new(path).strip_prefix(root).ok().map(
        |rel| rel.to_string_lossy().into_owned(),
    )
}

/// Relies on `Path::extension`: the text after the last `.` of the file
/// name, or `None` where the file name has no extension.
#[verifier::external_body]
pub(crate) fn extension(path: &str) -> (r: Option<String>)
    ensures
        opt_text(r) == extension_of(path@),
{
    std::path::Path::new(path).extension().map(|e| e.to_string_lossy().into_owned())
}

/// The components of `path` below `root`, or `None` when `path` does not lie under `root`.
pub open spec fn relative_components(path: Seq<char>, root: Seq<char>) -> Option<Seq<Seq<char>>> {
    match relative_to(path, root) {
        Some(rel) => Some(components_of(rel)),
        None => None,
    }
}

/// Splits `path` below `root` into components; `None` when `path` is not under `root`.
pub fn components_below(path: &str, root: &str) -> (r: Option<Vec<String>>)
    ensures
        match r {
            Some(cs) => relative_components(path@, root@) == Some(texts(cs@)),
            None => relative_components(path@, root@) is None,
        },
{
    match strip_root(path, root) {
        Some(rel) => Some(components(rel.as_str())),
        None => None,
    }
}

} // verus!
