//! Pure predicates on paths: cloud-sync locations, version-control metadata,
//! ignored build and dependency directories, and transient sync artifacts.

use vstd::prelude::*;
use crate::paths::{
    components, components_below, components_of, extension, extension_of, relative_components,
    texts,
};
use crate::text::{begins_with, contains_run, contains_text, lower_of, lowercase, same_text};

verus! {

/// The name of the version-control metadata directory.
pub open spec fn git_dir_name() -> Seq<char> {
    ".git"@
}

/// Lowercase text holds the name of a known cloud-sync product.
pub open spec fn has_cloud_marker(lower: Seq<char>) -> bool {
    contains_run(lower, "onedrive"@) || contains_run(lower, "sharepoint"@)
}

/// A component name that the change filter ignores: the dependency cache,
/// version control, and the usual build outputs.
pub open spec fn is_ignored_name(name: Seq<char>) -> bool {
    name == "node_modules"@ || name == ".git"@ || name == "dist"@ || name == "build"@ || name
        == ".next"@
}

/// A lowercase extension that marks a partial download or a sync temp file.
pub open spec fn is_transient_ext(lower: Seq<char>) -> bool {
    lower == "tmp"@ || lower == "crdownload"@ || lower == "partial"@ || "goutput"@.is_prefix_of(
        lower,
    )
}

/// `path` lies under `root` and one of its components below `root` is the metadata directory.
pub open spec fn inside_git_dir(path: Seq<char>, root: Seq<char>) -> bool {
    match relative_components(path, root) {
        Some(cs) => cs.contains(git_dir_name()),
        None => false,
    }
}

/// `path` lies under `root` and one of its components below `root` is an ignored name.
pub open spec fn inside_ignored_dir(path: Seq<char>, root: Seq<char>) -> bool {
    match relative_components(path, root) {
        Some(cs) => exists|i: int| 0 <= i < cs.len() && is_ignored_name(#[trigger] cs[i]),
        None => false,
    }
}

/// The final component of `path` is an ignored name.
pub open spec fn ends_in_ignored(path: Seq<char>) -> bool {
    let cs = components_of(path);
    cs.len() > 0 && is_ignored_name(cs.last())
}

/// The extension of `path`, lowercased, marks a transient artifact.
pub open spec fn is_transient(path: Seq<char>) -> bool {
    match extension_of(path) {
        Some(e) => is_transient_ext(lower_of(e)),
        None => false,
    }
}

/// Whether already-lowercased text names a cloud-sync product.
pub fn is_cloud_marked(lower: &str) -> (r: bool)
    ensures
        r == has_cloud_marker(lower@),
{
    contains_text(lower, "onedrive") || contains_text(lower, "sharepoint")
}

/// Whether `path` is on cloud-sync-backed storage, judged case-insensitively
/// from the product names it holds.
pub fn is_onedrive_path(path: &str) -> (r: bool)
    ensures
        r == has_cloud_marker(lower_of(path@)),
{
    let lower = lowercase(path);
    is_cloud_marked(lower.as_str())
}

/// Whether `name` is one of the ignored directory names.
pub fn is_ignored_component(name: &str) -> (r: bool)
    ensures
        r == is_ignored_name(name@),
{
    same_text(name, "node_modules") || same_text(name, ".git") || same_text(name, "dist")
        || same_text(name, "build") || same_text(name, ".next")
}

/// Whether some component in `cs` equals `name`.
fn any_component_is(cs: &Vec<String>, name: &str) -> (r: bool)
    ensures
        r == texts(cs@).contains(name@),
{
    let mut i: usize = 0;
    while i < cs.len()
        invariant
            i <= cs.len(),
            forall|k: int| 0 <= k < i ==> texts(cs@)[k] != name@,
        decreases cs.len() - i,
    {
        if same_text(cs[i].as_str(), name) {
            assert(texts(cs@)[i as int] == name@);
            return true;
        }
        i = i + 1;
    }
    false
}

/// Whether some component in `cs` is an ignored name.
fn any_component_ignored(cs: &Vec<String>) -> (r: bool)
    ensures
        r == exists|i: int| 0 <= i < cs@.len() && is_ignored_name(#[trigger] texts(cs@)[i]),
{
    let mut i: usize = 0;
    while i < cs.len()
        invariant
            i <= cs.len(),
            forall|k: int| 0 <= k < i ==> !is_ignored_name(#[trigger] texts(cs@)[k]),
        decreases cs.len() - i,
    {
        if is_ignored_component(cs[i].as_str()) {
            assert(is_ignored_name(texts(cs@)[i as int]));
            return true;
        }
        i = i + 1;
    }
    false
}

/// Whether `path` lies inside a version-control metadata directory at any
/// depth below `root`; `false` when `path` is not under `root`.
pub fn is_inside_git_dir(path: &str, root: &str) -> (r: bool)
    ensures
        r == inside_git_dir(path@, root@),
{
    match components_below(path, root) {
        Some(cs) => any_component_is(&cs, ".git"),
        None => false,
    }
}

/// Whether `path` lies inside an ignored directory at any depth below
/// `root`; `false` when `path` is not under `root`.
pub fn is_inside_ignored_dir(path: &str, root: &str) -> (r: bool)
    ensures
        r == inside_ignored_dir(path@, root@),
{
    match components_below(path, root) {
        Some(cs) => any_component_ignored(&cs),
        None => false,
    }
}

/// Whether the final component of `path` is an ignored name.
pub fn ends_with_ignored(path: &str) -> (r: bool)
    ensures
        r == ends_in_ignored(path@),
{
    let cs = components(path);
    if cs.len() == 0 {
        return false;
    }
    let last = cs.len() - 1;
    assert(texts(cs@).last() == texts(cs@)[last as int]);
    is_ignored_component(cs[last].as_str())
}

/// Whether an already-lowercased extension marks a transient artifact.
pub fn is_transient_extension(lower: &str) -> (r: bool)
    ensures
        r == is_transient_ext(lower@),
{
    same_text(lower, "tmp") || same_text(lower, "crdownload") || same_text(lower, "partial")
        || begins_with(lower, "goutput")
}

/// Whether `path` is a partial download or sync temp file, judged by its
/// extension without regard to case; a path without extension never is.
pub fn is_temp_sync_file(path: &str) -> (r: bool)
    ensures
        r == is_transient(path@),
{
    match extension(path) {
        Some(ext) => {
            let lower = lowercase(ext.as_str());
            is_transient_extension(lower.as_str())
        },
        None => false,
    }
}

} // verus!
