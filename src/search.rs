//! Workspace text search: the pattern built from a query, the compiled
//! matcher, which directory entries a search skips, and the matching lines
//! of one file.

use vstd::prelude::*;
use crate::paths::texts;
use crate::text::{lines_of, same_text, split_lines};

verus! {

#[verifier::external_type_specification]
#[verifier::external_body]
pub struct ExRegex(regex::Regex);

#[verifier::external_type_specification]
#[verifier::external_body]
pub struct ExRegexError(regex::Error);

/// How a query is read.
#[derive(Clone, Copy, Debug, PartialEq, Eq, Structural)]
pub struct SearchOptions {
    pub match_case: bool,
    pub whole_word: bool,
    pub regex: bool,
}

/// One matching line: its number, counted from 1, and its text.
pub struct MatchLine {
    pub line: usize,
    pub text: String,
}

/// The matching lines of one file.
pub struct SearchResult {
    pub file_path: String,
    pub matches: Vec<MatchLine>,
}

/// Files larger than this many bytes are not searched.
pub const MAX_SEARCH_FILE_BYTES: u64 = 1000000;

/// How deep below the workspace root a search descends.
pub const MAX_SEARCH_DEPTH: usize = 3;

/// A character with a meaning in a regular expression, as `regex_syntax::is_meta_character` lists them.
pub open spec fn is_meta_char(c: char) -> bool {
    c == '\\' || c == '.' || c == '+' || c == '*' || c == '?' || c == '(' || c == ')' || c == '|'
        || c == '[' || c == ']' || c == '{' || c == '}' || c == '^' || c == '$' || c == '#' || c
        == '&' || c == '-' || c == '~'
}

/// The query with a backslash before every metacharacter.
pub open spec fn escaped_of(query: Seq<char>) -> Seq<char>
    decreases query.len(),
{
    if query.len() == 0 {
        Seq::empty()
    } else if is_meta_char(query.last()) {
        escaped_of(query.drop_last()) + seq!['\\', query.last()]
    } else {
        escaped_of(query.drop_last()).push(query.last())
    }
}

/// Whether `pattern` compiles, with the given case sensitivity, as `RegexBuilder::build` decides.
pub uninterp spec fn compiles(pattern: Seq<char>, case_insensitive: bool) -> bool;

/// Whether the regex compiled from `pattern` matches somewhere in `haystack`,
/// as `Regex::is_match` decides.
pub uninterp spec fn regex_matches(pattern: Seq<char>, case_insensitive: bool, haystack: Seq<char>) -> bool;

/// Relies on `regex::escape`: each metacharacter of the query gets a
/// backslash before it, every other character is copied.
#[verifier::external_body]
fn escape_query(query: &str) -> (r: String)
    ensures
        r@ == escaped_of(query@),
{
    regex::escape(query)
}

/// Relies on `RegexBuilder::new`, `case_insensitive` and `build`: success
/// exactly when the pattern compiles with that setting.
#[verifier::external_body]
fn compile(pattern: &str, case_insensitive: bool) -> (r: Result<regex::Regex, regex::Error>)
    ensures
        r is Ok == compiles(pattern@, case_insensitive),
{
    regex::RegexBuilder::new(pattern).case_insensitive(case_insensitive).build()
}

/// Relies on the `Display` impl of `regex::Error`: a description of why the pattern failed.
#[verifier::external_body]
fn error_text(e: &regex::Error) -> (r: String) {
    e.to_string()
}

/// The pattern that a search for `query` compiles.
pub open spec fn pattern_for(query: Seq<char>, options: SearchOptions) -> Seq<char> {
    if options.regex {
        query
    } else if options.whole_word {
        "\\b"@ + escaped_of(query) + "\\b"@
    } else {
        escaped_of(query)
    }
}

/// Builds the pattern for `query`: the query itself in regex mode; else the
/// escaped query, between word boundaries when whole words are asked for.
pub fn search_pattern(query: &str, options: SearchOptions) -> (r: String)
    ensures
        r@ == pattern_for(query@, options),
{
    if options.regex {
        query.to_string()
    } else if options.whole_word {
        let escaped = escape_query(query);
        let mut p = "\\b".to_string();
        p.append(escaped.as_str());
        p.append("\\b");
        p
    } else {
        escape_query(query)
    }
}

/// A compiled search pattern, with the text and case setting it was compiled from.
pub struct Matcher {
    re: regex::Regex,
    pattern: String,
    case_insensitive: bool,
}

/// Relies on `Regex::is_match`: whether the matcher's regex, which
/// `Matcher::build` alone compiles from the matcher's own pattern and
/// setting, matches somewhere in `haystack`.
#[verifier::external_body]
fn regex_is_match(m: &Matcher, haystack: &str) -> (r: bool)
    ensures
        r == regex_matches(m.pattern_view(), m.case_insensitive_view(), haystack@),
{
    m.re.is_match(haystack)
}

impl Matcher {
    /// The pattern the matcher was compiled from.
    pub closed spec fn pattern_view(&self) -> Seq<char> {
        self.pattern@
    }

    /// Whether the matcher ignores case.
    pub closed spec fn case_insensitive_view(&self) -> bool {
        self.case_insensitive
    }

    /// Compiles `pattern`; an error names the failure after `Invalid regex: `.
    pub fn build(pattern: &str, case_insensitive: bool) -> (r: Result<Matcher, String>)
        ensures
            r is Ok <==> compiles(pattern@, case_insensitive),
            r matches Ok(m) ==> m.pattern_view() == pattern@ && m.case_insensitive_view()
                == case_insensitive,
            r matches Err(e) ==> "Invalid regex: "@.is_prefix_of(e@),
    {
        match compile(pattern, case_insensitive) {
            Ok(re) => Ok(Matcher { re, pattern: pattern.to_string(), case_insensitive }),
            Err(e) => {
                let mut msg = "Invalid regex: ".to_string();
                let detail = error_text(&e);
                msg.append(detail.as_str());
                proof {
                    assert("Invalid regex: "@.is_prefix_of(msg@)) by {
                        assert(msg@.subrange(0, "Invalid regex: "@.len() as int) =~= "Invalid regex: "@);
                    }
                }
                Err(msg)
            },
        }
    }

    /// Whether the matcher matches somewhere in `haystack`.
    pub fn is_match(&self, haystack: &str) -> (r: bool)
        ensures
            r == regex_matches(self.pattern_view(), self.case_insensitive_view(), haystack@),
    {
        regex_is_match(self, haystack)
    }
}

/// Compiles the matcher for a search: the pattern of `search_pattern`,
/// ignoring case unless `match_case` is set.
pub fn search_matcher(query: &str, options: SearchOptions) -> (r: Result<Matcher, String>)
    ensures
        r is Ok <==> compiles(pattern_for(query@, options), !options.match_case),
        r matches Ok(m) ==> m.pattern_view() == pattern_for(query@, options)
            && m.case_insensitive_view() == !options.match_case,
{
    let pattern = search_pattern(query, options);
    Matcher::build(pattern.as_str(), !options.match_case)
}

/// A directory entry that the search walk does not enter or read: one of
/// the ignored directory names below the root. The root itself is always walked.
pub open spec fn search_skips(name: Seq<char>, depth: nat) -> bool {
    depth > 0 && (name == "node_modules"@ || name == ".git"@ || name == "dist"@ || name
        == "build"@ || name == "target"@)
}

/// Whether the search walk skips an entry named `name` at `depth` below the root.
pub fn skips_entry(name: &str, depth: usize) -> (r: bool)
    ensures
        r == search_skips(name@, depth as nat),
{
    depth > 0 && (same_text(name, "node_modules") || same_text(name, ".git") || same_text(
        name,
        "dist",
    ) || same_text(name, "build") || same_text(name, "target"))
}

/// Whether a file of `len` bytes is small enough to search.
pub fn within_search_size(len: u64) -> (r: bool)
    ensures
        r == (len <= MAX_SEARCH_FILE_BYTES),
{
    len <= MAX_SEARCH_FILE_BYTES
}

/// The model of a match line: its number and its text.
pub open spec fn match_view(m: MatchLine) -> (int, Seq<char>) {
    (m.line as int, m.text@)
}

/// The numbered lines of `lines` (from 1) that satisfy `hit`, in order.
pub open spec fn numbered_hits(lines: Seq<Seq<char>>, hit: spec_fn(Seq<char>) -> bool) -> Seq<
    (int, Seq<char>),
> {
    Seq::new(lines.len(), |i: int| (i + 1, lines[i])).filter(
        |l: (int, Seq<char>)| hit(l.1),
    )
}

/// The lines of `content` that `m` matches, numbered from 1, in order.
pub open spec fn matching_lines_spec(m: Matcher, content: Seq<char>) -> Seq<(int, Seq<char>)> {
    numbered_hits(
        lines_of(content),
        |l: Seq<char>| regex_matches(m.pattern_view(), m.case_insensitive_view(), l),
    )
}

/// The lines of `content` that `m` matches, each with its number counted from 1.
pub fn matching_lines(m: &Matcher, content: &str) -> (r: Vec<MatchLine>)
    ensures
        r@.map_values(|x: MatchLine| match_view(x)) == matching_lines_spec(*m, content@),
{
    let lines = split_lines(content);
    let ghost ls = texts(lines@);
    let ghost hit = |l: Seq<char>| regex_matches(m.pattern_view(), m.case_insensitive_view(), l);
    let ghost pred = |l: (int, Seq<char>)| hit(l.1);
    let ghost numbered = Seq::new(ls.len(), |i: int| (i + 1, ls[i]));
    let mut out: Vec<MatchLine> = Vec::new();
    let mut i: usize = 0;
    while i < lines.len()
        invariant
            i <= lines.len(),
            ls == texts(lines@),
            ls == lines_of(content@),
            hit == (|l: Seq<char>| regex_matches(m.pattern_view(), m.case_insensitive_view(), l)),
            pred == (|l: (int, Seq<char>)| hit(l.1)),
            numbered == Seq::new(ls.len(), |i: int| (i + 1, ls[i])),
            out@.map_values(|x: MatchLine| match_view(x)) == numbered.take(i as int).filter(pred),
        decreases lines.len() - i,
    {
        let ghost before = out@;
        proof {
            let s = numbered.take(i + 1);
            assert(s.drop_last() =~= numbered.take(i as int));
            assert(s.last() == (i + 1, ls[i as int]));
            reveal(Seq::filter);
        }
        if m.is_match(lines[i].as_str()) {
            out.push(MatchLine { line: i + 1, text: lines[i].clone() });
            assert(out@.map_values(|x: MatchLine| match_view(x)) =~= before.map_values(
                |x: MatchLine| match_view(x),
            ).push((i + 1, ls[i as int])));
        }
        i = i + 1;
    }
    assert(numbered.take(lines@.len() as int) =~= numbered);
    out
}

/// The search result of one file: `None` when no line matches, else the
/// file's path with its matching lines.
pub fn search_file(m: &Matcher, file_path: String, content: &str) -> (r: Option<SearchResult>)
    ensures
        matching_lines_spec(*m, content@).len() == 0 ==> r is None,
        matching_lines_spec(*m, content@).len() > 0 ==> (r matches Some(res) && res.file_path@
            == file_path@ && res.matches@.map_values(|x: MatchLine| match_view(x))
            == matching_lines_spec(*m, content@)),
{
    let matches = matching_lines(m, content);
    if matches.len() == 0 {
        assert(matches@.map_values(|x: MatchLine| match_view(x)).len() == 0);
        None
    } else {
        Some(SearchResult { file_path, matches })
    }
}

} // verus!
