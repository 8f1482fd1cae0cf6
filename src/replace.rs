//! Workspace text replacement: the edit that one file's content receives.

use vstd::prelude::*;
use crate::text::{chars_of, string_of};

verus! {

/// How a replacement is applied.
#[derive(Clone, Copy, Debug, PartialEq, Eq, Structural)]
pub struct ReplaceOptions {
    pub replace_next: bool,
    pub replace_all: bool,
}

/// How many occurrences were replaced.
#[derive(Clone, Copy, Debug, PartialEq, Eq, Structural)]
pub struct ReplaceResult {
    pub replaced: usize,
}

/// A file named by an earlier search.
pub struct SearchResultInput {
    pub file_path: String,
}

/// What one file's content becomes.
pub enum FileEdit {
    /// The file is left alone.
    Unchanged,
    /// The first occurrence was replaced; no further file is edited.
    ReplacedFirst(String),
    /// Every occurrence was replaced; the count says how many.
    ReplacedAll(String, usize),
}

/// `q` occurs in `s` starting at `i`.
pub open spec fn occurs_at(s: Seq<char>, q: Seq<char>, i: int) -> bool {
    0 <= i && i + q.len() <= s.len() && s.subrange(i, i + q.len()) == q
}

/// The number of occurrences of a non-empty `q` in `s`, taken left to right
/// without overlap.
pub open spec fn occurrences(s: Seq<char>, q: Seq<char>) -> nat
    decreases s.len(),
{
    if s.len() == 0 || q.len() == 0 {
        0
    } else if q.is_prefix_of(s) {
        1 + occurrences(s.skip(q.len() as int), q)
    } else {
        occurrences(s.skip(1), q)
    }
}

/// `s` with each occurrence of a non-empty `q`, taken left to right without
/// overlap, replaced by `r`.
pub open spec fn replaced(s: Seq<char>, q: Seq<char>, r: Seq<char>) -> Seq<char>
    decreases s.len(),
{
    if s.len() == 0 || q.len() == 0 {
        s
    } else if q.is_prefix_of(s) {
        r + replaced(s.skip(q.len() as int), q, r)
    } else {
        seq![s[0]] + replaced(s.skip(1), q, r)
    }
}

/// `s` with the occurrence of `q` at `k` replaced by `r`.
pub open spec fn replaced_at(s: Seq<char>, q: Seq<char>, r: Seq<char>, k: int) -> Seq<char> {
    s.take(k) + r + s.skip(k + q.len())
}

/// `k` is the first place where `q` occurs in `s`.
pub open spec fn first_occurrence(s: Seq<char>, q: Seq<char>, k: int) -> bool {
    occurs_at(s, q, k) && forall|j: int| 0 <= j < k ==> !occurs_at(s, q, j)
}

/// Whether `q` occurs in `s` at `i`.
fn occurs_here(s: &Vec<char>, q: &Vec<char>, i: usize) -> (r: bool)
    requires
        i <= s@.len(),
    ensures
        r == occurs_at(s@, q@, i as int),
{
    if q.len() > s.len() - i {
        return false;
    }
    let mut j: usize = 0;
    while j < q.len()
        invariant
            i + q.len() <= s.len(),
            j <= q@.len(),
            forall|k: int| 0 <= k < j ==> s@[i + k] == q@[k],
        decreases q.len() - j,
    {
        if s[i + j] != q[j] {
            assert(s@.subrange(i as int, i + q@.len())[j as int] != q@[j as int]);
            return false;
        }
        j = j + 1;
    }
    assert(s@.subrange(i as int, i + q@.len()) =~= q@);
    true
}

/// The first place where `q` occurs in `s`, if any.
fn find_first(s: &Vec<char>, q: &Vec<char>) -> (r: Option<usize>)
    ensures
        r matches Some(k) ==> first_occurrence(s@, q@, k as int),
        r is None ==> forall|j: int| !occurs_at(s@, q@, j),
{
    let mut i: usize = 0;
    loop
        invariant
            i <= s@.len(),
            forall|j: int| 0 <= j < i ==> !occurs_at(s@, q@, j),
        decreases s.len() - i,
    {
        if occurs_here(s, q, i) {
            return Some(i);
        }
        if i == s.len() {
            assert forall|j: int| !occurs_at(s@, q@, j) by {
                if 0 <= j && j + q@.len() <= s@.len() && j != i {
                    assert(j < i);
                }
            }
            return None;
        }
        i = i + 1;
    }
}

/// Appends the characters `v` to `out`.
fn push_all(out: &mut Vec<char>, v: &Vec<char>)
    ensures
        final(out)@ == old(out)@ + v@,
{
    let mut j: usize = 0;
    while j < v.len()
        invariant
            j <= v@.len(),
            out@ == old(out)@ + v@.take(j as int),
        decreases v.len() - j,
    {
        out.push(v[j]);
        assert(v@.take(j + 1) =~= v@.take(j as int).push(v@[j as int]));
        j = j + 1;
    }
    assert(v@.take(v@.len() as int) =~= v@);
}

/// Replaces every occurrence of a non-empty `q` in `s` by `r`, left to
/// right without overlap, and counts them.
fn replace_every(s: &Vec<char>, q: &Vec<char>, r: &Vec<char>) -> (res: (Vec<char>, usize))
    requires
        q@.len() > 0,
    ensures
        res.0@ == replaced(s@, q@, r@),
        res.1 == occurrences(s@, q@),
{
    let mut out: Vec<char> = Vec::new();
    let mut count: usize = 0;
    let mut i: usize = 0;
    assert(s@.skip(0) =~= s@);
    while i < s.len()
        invariant
            q@.len() > 0,
            i <= s@.len(),
            count <= i,
            out@ + replaced(s@.skip(i as int), q@, r@) == replaced(s@, q@, r@),
            count + occurrences(s@.skip(i as int), q@) == occurrences(s@, q@),
        decreases s.len() - i,
    {
        let ghost rest = s@.skip(i as int);
        if occurs_here(s, q, i) {
            proof {
                assert(q@.is_prefix_of(rest)) by {
                    assert(rest.take(q@.len() as int) =~= s@.subrange(i as int, i + q@.len()));
                }
                assert(rest.skip(q@.len() as int) =~= s@.skip(i + q@.len()));
            }
            push_all(&mut out, r);
            count = count + 1;
            i = i + q.len();
            assert(out@ + replaced(s@.skip(i as int), q@, r@) =~= replaced(s@, q@, r@));
        } else {
            proof {
                assert(!q@.is_prefix_of(rest)) by {
                    if q@.is_prefix_of(rest) {
                        assert(s@.subrange(i as int, i + q@.len()) =~= rest.take(q@.len() as int));
                    }
                }
                assert(rest.skip(1) =~= s@.skip(i + 1));
                assert(rest[0] == s@[i as int]);
            }
            out.push(s[i]);
            i = i + 1;
            assert(out@ + replaced(s@.skip(i as int), q@, r@) =~= replaced(s@, q@, r@));
        }
    }
    proof {
        assert(s@.skip(i as int).len() == 0);
        assert(out@ + replaced(s@.skip(i as int), q@, r@) =~= out@);
    }
    (out, count)
}

/// Replaces the occurrence of `q` at `k` in `s` by `r`.
fn replace_one(s: &Vec<char>, q: &Vec<char>, r: &Vec<char>, k: usize) -> (res: Vec<char>)
    requires
        occurs_at(s@, q@, k as int),
    ensures
        res@ == replaced_at(s@, q@, r@, k as int),
{
    let mut out: Vec<char> = Vec::new();
    let mut i: usize = 0;
    while i < k
        invariant
            k + q@.len() <= s@.len(),
            i <= k,
            out@ == s@.take(i as int),
        decreases k - i,
    {
        out.push(s[i]);
        assert(s@.take(i + 1) =~= s@.take(i as int).push(s@[i as int]));
        i = i + 1;
    }
    push_all(&mut out, r);
    assert(k + q@.len() <= s.len());
    let mut j: usize = k + q.len();
    while j < s.len()
        invariant
            k + q@.len() <= j <= s@.len(),
            out@ == s@.take(k as int) + r@ + s@.subrange(k + q@.len(), j as int),
        decreases s.len() - j,
    {
        out.push(s[j]);
        assert(s@.subrange(k + q@.len(), j + 1) =~= s@.subrange(k + q@.len(), j as int).push(
            s@[j as int],
        ));
        j = j + 1;
    }
    assert(s@.subrange(k + q@.len(), s@.len() as int) =~= s@.skip(k + q@.len()));
    out
}

/// The edit that a file with `content` receives. Nothing changes for an
/// empty query. With `replace_next`, the first occurrence is replaced when
/// there is one; otherwise, with `replace_all`, every occurrence is replaced
/// when there is at least one.
pub fn plan_edit(content: &str, query: &str, replacement: &str, options: ReplaceOptions) -> (r:
    FileEdit)
    ensures
        query@.len() == 0 ==> r is Unchanged,
        query@.len() > 0 && options.replace_next && (exists|k: int|
            occurs_at(content@, query@, k)) ==> (r matches FileEdit::ReplacedFirst(t) && exists|
            k: int,
        |
            first_occurrence(content@, query@, k) && t@ == replaced_at(
                content@,
                query@,
                replacement@,
                k,
            )),
        query@.len() > 0 && !(options.replace_next && (exists|k: int|
            occurs_at(content@, query@, k))) && options.replace_all && occurrences(content@, query@)
            > 0 ==> (r matches FileEdit::ReplacedAll(t, n) && t@ == replaced(
            content@,
            query@,
            replacement@,
        ) && n == occurrences(content@, query@)),
        query@.len() > 0 && !(options.replace_next && (exists|k: int|
            occurs_at(content@, query@, k))) && !(options.replace_all && occurrences(
            content@,
            query@,
        ) > 0) ==> r is Unchanged,
{
    let q = chars_of(query);
    if q.len() == 0 {
        return FileEdit::Unchanged;
    }
    let s = chars_of(content);
    let r = chars_of(replacement);
    if options.replace_next {
        match find_first(&s, &q) {
            Some(k) => {
                let edited = replace_one(&s, &q, &r, k);
                return FileEdit::ReplacedFirst(string_of(&edited));
            },
            None => {},
        }
    }
    if options.replace_all {
        let (edited, n) = replace_every(&s, &q, &r);
        if n > 0 {
            return FileEdit::ReplacedAll(string_of(&edited), n);
        }
    }
    FileEdit::Unchanged
}

impl FileEdit {
    /// How many occurrences the edit replaces.
    pub fn count(&self) -> (r: usize)
        ensures
            r == match self {
                FileEdit::Unchanged => 0,
                FileEdit::ReplacedFirst(_) => 1,
                FileEdit::ReplacedAll(_, n) => *n,
            },
    {
        match self {
            FileEdit::Unchanged => 0,
            FileEdit::ReplacedFirst(_) => 1,
            FileEdit::ReplacedAll(_, n) => *n,
        }
    }

    /// Whether no further file is edited once this edit is written.
    pub fn stops(&self) -> (r: bool)
        ensures
            r == (self is ReplacedFirst),
    {
        match self {
            FileEdit::ReplacedFirst(_) => true,
            _ => false,
        }
    }
}

} // verus!
