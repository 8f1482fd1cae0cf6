//! Character-level helpers on strings, stated over `Seq<char>`.

use vstd::prelude::*;
use crate::paths::texts;

verus! {

/// `needle` occurs as a contiguous run somewhere in `s`.
pub open spec fn contains_run(s: Seq<char>, needle: Seq<char>) -> bool {
    exists|i: int|
        0 <= i && i + needle.len() <= s.len() && #[trigger] s.subrange(i, i + needle.len())
            == needle
}

/// The lowercase form of a string, as `str::to_lowercase` produces it.
pub uninterp spec fn lower_of(s: Seq<char>) -> Seq<char>;

/// Relies on `str::to_lowercase`: the result is a function of the characters alone.
#[verifier::external_body]
pub(crate) fn lowercase(s: &str) -> (r: String)
    ensures
        r@ == lower_of(s@),
{
    s.to_lowercase()
}

/// The place of the first newline in `s`, if any.
pub open spec fn first_newline(s: Seq<char>) -> Option<int>
    decreases s.len(),
{
    if s.len() == 0 {
        None
    } else if s[0] == '\n' {
        Some(0)
    } else {
        match first_newline(s.skip(1)) {
            Some(i) => Some(i + 1),
            None => None,
        }
    }
}

/// A line ended by a newline, without a carriage return just before it.
pub open spec fn strip_cr(line: Seq<char>) -> Seq<char> {
    if line.len() > 0 && line.last() == '\r' {
        line.drop_last()
    } else {
        line
    }
}

/// The lines of `text`: split at each `\n`, where a `\r\n` ending loses
/// its `\r` as well; a final line ending is optional and adds no empty line.
/// A `\r` not followed by `\n` stays in its line.
pub open spec fn lines_of(text: Seq<char>) -> Seq<Seq<char>>
    decreases text.len(),
{
    if text.len() == 0 {
        Seq::empty()
    } else {
        match first_newline(text) {
            Some(i) => if 0 <= i < text.len() {
                seq![strip_cr(text.take(i))] + lines_of(text.skip(i + 1))
            } else {
                Seq::empty()
            },
            None => seq![text],
        }
    }
}

/// A character with the Unicode `White_Space` property.
pub open spec fn is_white_space(c: char) -> bool {
    let u = c as u32;
    (0x9 <= u <= 0xd) || u == 0x20 || u == 0x85 || u == 0xa0 || u == 0x1680 || (0x2000 <= u
        <= 0x200a) || u == 0x2028 || u == 0x2029 || u == 0x202f || u == 0x205f || u == 0x3000
}

/// The number of whitespace characters at the start of `s`.
pub open spec fn leading_white(s: Seq<char>) -> nat
    decreases s.len(),
{
    if s.len() == 0 || !is_white_space(s[0]) {
        0
    } else {
        1 + leading_white(s.skip(1))
    }
}

/// The number of whitespace characters at the end of `s`.
pub open spec fn trailing_white(s: Seq<char>) -> nat
    decreases s.len(),
{
    if s.len() == 0 || !is_white_space(s.last()) {
        0
    } else {
        1 + trailing_white(s.drop_last())
    }
}

/// `s` without its leading, then its trailing, whitespace.
pub open spec fn trimmed_of(s: Seq<char>) -> Seq<char> {
    let rest = s.skip(leading_white(s) as int);
    rest.take(rest.len() - trailing_white(rest))
}

/// Relies on `str::lines`: the lines of `text`, split as its documentation
/// states, each as an owned string.
#[verifier::external_body]
pub(crate) fn split_lines(text: &str) -> (r: Vec<String>)
    ensures
        texts(r@) == lines_of(text@),
{
    text.lines().map(|l| l.to_string()).collect()
}

/// Relies on `str::chars`: the characters of `s`, in order.
#[verifier::external_body]
pub(crate) fn chars_of(s: &str) -> (r: Vec<char>)
    ensures
        r@ == s@,
{
    s.chars().collect()
}

/// Relies on `String`'s `FromIterator<char>`: the string of the characters `v`.
#[verifier::external_body]
pub(crate) fn string_of(v: &Vec<char>) -> (r: String)
    ensures
        r@ == v@,
{
    v.iter().collect()
}

/// Relies on `str::trim`: the text without leading and trailing whitespace,
/// whitespace being the Unicode `White_Space` characters.
#[verifier::external_body]
pub(crate) fn trim_text(s: &str) -> (r: String)
    ensures
        r@ == trimmed_of(s@),
{
    s.trim().to_string()
}

/// Whether the characters of `s` from `start` on begin with `needle`.
pub fn matches_at(s: &str, needle: &str, start: usize) -> (r: bool)
    requires
        start + needle@.len() <= s@.len(),
    ensures
        r == (s@.subrange(start as int, start + needle@.len()) == needle@),
{
    let n = needle.unicode_len();
    let len = s.unicode_len();
    let mut j: usize = 0;
    while j < n
        invariant
            n == needle@.len(),
            len == s@.len(),
            start + n <= len,
            j <= n,
            forall|k: int| 0 <= k < j ==> s@[start + k] == needle@[k],
        decreases n - j,
    {
        if s.get_char(start + j) != needle.get_char(j) {
            assert(s@.subrange(start as int, start + n)[j as int] != needle@[j as int]);
            return false;
        }
        j = j + 1;
    }
    assert(s@.subrange(start as int, start + n) =~= needle@);
    true
}

/// Whether two strings hold the same characters.
pub fn same_text(a: &str, b: &str) -> (r: bool)
    ensures
        r == (a@ == b@),
{
    if a.unicode_len() != b.unicode_len() {
        return false;
    }
    let r = matches_at(a, b, 0);
    assert(a@.subrange(0, a@.len() as int) =~= a@);
    r
}

/// Whether `s` begins with `prefix`.
pub fn begins_with(s: &str, prefix: &str) -> (r: bool)
    ensures
        r == prefix@.is_prefix_of(s@),
{
    if prefix.unicode_len() > s.unicode_len() {
        return false;
    }
    let r = matches_at(s, prefix, 0);
    assert(r == (s@.subrange(0, prefix@.len() as int) =~= prefix@));
    r
}

/// Whether `needle` occurs anywhere in `s`.
pub fn contains_text(s: &str, needle: &str) -> (r: bool)
    ensures
        r == contains_run(s@, needle@),
{
    let len = s.unicode_len();
    let n = needle.unicode_len();
    if n > len {
        return false;
    }
    let mut i: usize = 0;
    loop
        invariant
            len == s@.len(),
            n == needle@.len(),
            n <= len,
            i <= len - n,
            forall|k: int| 0 <= k < i ==> #[trigger] s@.subrange(k, k + n) != needle@,
        decreases len - n - i,
    {
        if matches_at(s, needle, i) {
            return true;
        }
        if i == len - n {
            return false;
        }
        i = i + 1;
    }
}

} // verus!
