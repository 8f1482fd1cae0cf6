//! The filter that turns the paths of one raw notification into the batch
//! of paths worth reporting.

use vstd::prelude::*;
use crate::classify::{
    ends_in_ignored, ends_with_ignored, git_dir_name, inside_git_dir, inside_ignored_dir,
    is_inside_git_dir, is_inside_ignored_dir, is_temp_sync_file, is_transient, is_transient_ext,
};
use crate::paths::{components_of, extension_of, relative_to, strip_root, texts};
use crate::text::lower_of;

verus! {

/// `path` survives the filter of a session on `root`: it lies under `root`,
/// its final component is not an ignored name, no component below `root` is
/// the metadata directory or another ignored name, and it is no transient artifact.
pub open spec fn path_kept(path: Seq<char>, root: Seq<char>) -> bool {
    &&& relative_to(path, root) is Some
    &&& !ends_in_ignored(path)
    &&& !inside_git_dir(path, root)
    &&& !inside_ignored_dir(path, root)
    &&& !is_transient(path)
}

/// The batch for the paths of one notification: those that survive, in the order reported.
pub open spec fn kept_paths(paths: Seq<Seq<char>>, root: Seq<char>) -> Seq<Seq<char>> {
    paths.filter(|p: Seq<char>| path_kept(p, root))
}

/// Whether `path` survives the filter of a session on `root`.
pub fn keeps_path(path: &str, root: &str) -> (r: bool)
    ensures
        r == path_kept(path@, root@),
{
    let under = match strip_root(path, root) {
        Some(_) => true,
        None => false,
    };
    under && !ends_with_ignored(path) && !is_inside_git_dir(path, root) && !is_inside_ignored_dir(
        path,
        root,
    ) && !is_temp_sync_file(path)
}

/// Filters the paths of one raw notification for a session on `root`,
/// keeping the survivors in the order reported.
pub fn filter_batch(paths: &Vec<String>, root: &str) -> (r: Vec<String>)
    ensures
        texts(r@) == kept_paths(texts(paths@), root@),
{
    let ghost pred = |p: Seq<char>| path_kept(p, root@);
    let mut out: Vec<String> = Vec::new();
    let mut i: usize = 0;
    while i < paths.len()
        invariant
            i <= paths.len(),
            pred == (|p: Seq<char>| path_kept(p, root@)),
            texts(out@) == texts(paths@).take(i as int).filter(pred),
        decreases paths.len() - i,
    {
        let ghost before = out@;
        proof {
            let s = texts(paths@).take(i + 1);
            assert(s.drop_last() =~= texts(paths@).take(i as int));
            assert(s.last() == paths@[i as int]@);
            reveal(Seq::filter);
        }
        if keeps_path(paths[i].as_str(), root) {
            out.push(paths[i].clone());
            assert(texts(out@) =~= texts(before).push(paths@[i as int]@));
        }
        i = i + 1;
    }
    assert(texts(paths@).take(paths@.len() as int) =~= texts(paths@));
    out
}

/// Every path of a batch survives every rule of the filter.
pub proof fn batch_paths_are_kept(paths: Seq<Seq<char>>, root: Seq<char>, i: int)
    requires
        0 <= i < kept_paths(paths, root).len(),
    ensures
        path_kept(kept_paths(paths, root)[i], root),
{
    broadcast use vstd::seq_lib::group_filter_ensures;

}

/// A path kept in a batch lies under the session's root.
proof fn kept_only_if(paths: Seq<Seq<char>>, root: Seq<char>, p: Seq<char>)
    requires
        kept_paths(paths, root).contains(p),
    ensures
        path_kept(p, root),
{
    let i = choose|i: int| 0 <= i < kept_paths(paths, root).len() && kept_paths(paths, root)[i] == p;
    batch_paths_are_kept(paths, root, i);
}

/// A path that does not lie under the root never appears in a batch of a
/// session on that root.
pub proof fn outside_root_excluded(paths: Seq<Seq<char>>, root: Seq<char>, p: Seq<char>)
    requires
        relative_to(p, root) is None,
    ensures
        !kept_paths(paths, root).contains(p),
{
    if kept_paths(paths, root).contains(p) {
        kept_only_if(paths, root, p);
    }
}

/// A path with the metadata directory among its components below the root
/// never appears in a batch, however deep it lies.
pub proof fn git_metadata_excluded(
    paths: Seq<Seq<char>>,
    root: Seq<char>,
    p: Seq<char>,
    rel: Seq<char>,
    depth: int,
)
    requires
        relative_to(p, root) == Some(rel),
        0 <= depth < components_of(rel).len(),
        components_of(rel)[depth] == git_dir_name(),
    ensures
        !kept_paths(paths, root).contains(p),
{
    if kept_paths(paths, root).contains(p) {
        kept_only_if(paths, root, p);
        assert(components_of(rel).contains(git_dir_name()));
    }
}

/// A path whose extension, lowercased, marks a transient artifact never
/// appears in a batch, whatever the other rules say of it.
pub proof fn transient_excluded(paths: Seq<Seq<char>>, root: Seq<char>, p: Seq<char>, ext: Seq<char>)
    requires
        extension_of(p) == Some(ext),
        is_transient_ext(lower_of(ext)),
    ensures
        !kept_paths(paths, root).contains(p),
{
    if kept_paths(paths, root).contains(p) {
        kept_only_if(paths, root, p);
    }
}

/// Filtering a batch again changes nothing: the filter is a function of the
/// reported paths and the root, and its output already passes it.
pub proof fn filter_idempotent(paths: Seq<Seq<char>>, root: Seq<char>)
    ensures
        kept_paths(kept_paths(paths, root), root) == kept_paths(paths, root),
    decreases paths.len(),
{
    reveal(Seq::filter);
    if paths.len() > 0 {
        filter_idempotent(paths.drop_last(), root);
        let pred = |p: Seq<char>| path_kept(p, root);
        let once = kept_paths(paths, root);
        if pred(paths.last()) {
            assert(once.drop_last() =~= kept_paths(paths.drop_last(), root));
        }
    }
}

} // verus!
