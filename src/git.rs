//! Reading the text that version-control commands print: porcelain status
//! lines, the state of one file, graph log lines, and commit counts.

use vstd::prelude::*;
use crate::paths::texts;
use crate::text::{
    chars_of, contains_run, contains_text, lines_of, split_lines, string_of, trim_text, trimmed_of,
};

verus! {

/// Where a porcelain status line puts its file.
#[derive(Clone, Copy, Debug, PartialEq, Eq, Structural)]
pub enum ChangeGroup {
    Staged,
    Unstaged,
    Untracked,
    Ignored,
}

/// One file of a status listing: its group, its status letter (none for
/// ignored files), and its path.
pub struct StatusEntry {
    pub group: ChangeGroup,
    pub status: Option<char>,
    pub path: String,
}

/// The state of a single file, folded from its status lines.
#[derive(Clone, Copy, Debug, PartialEq, Eq, Structural)]
pub enum FileState {
    Clean,
    Untracked,
    Deleted,
    Added,
    Modified,
}

/// One line of the graph log: the drawing at its left, and the commit it
/// names, if any.
pub struct GraphRow {
    pub graph: String,
    pub hash: String,
    pub message: String,
    pub is_head: bool,
    pub remote: bool,
}

/// Every character of `d` is an ASCII digit.
pub open spec fn all_digits(d: Seq<char>) -> bool {
    forall|i: int| 0 <= i < d.len() ==> '0' <= #[trigger] d[i] <= '9'
}

/// The value of the decimal digits `d`.
pub open spec fn digits_value(d: Seq<char>) -> int
    decreases d.len(),
{
    if d.len() == 0 {
        0
    } else {
        digits_value(d.drop_last()) * 10 + (d.last() as int - '0' as int)
    }
}

/// The value of a decimal `i32` in `s`: an optional `+` or `-`, then one or
/// more ASCII digits, within the range of `i32`; `None` for anything else.
pub open spec fn i32_of(s: Seq<char>) -> Option<i32> {
    let signed = s.len() > 0 && (s[0] == '+' || s[0] == '-');
    let d = if signed {
        s.skip(1)
    } else {
        s
    };
    let v = if signed && s[0] == '-' {
        -digits_value(d)
    } else {
        digits_value(d)
    };
    if d.len() > 0 && all_digits(d) && i32::MIN <= v <= i32::MAX {
        Some(v as i32)
    } else {
        None
    }
}

/// Relies on `str::parse::<i32>` (`i32::from_str`): an optional sign, then
/// ASCII digits, within range; `None` where the text is not such a number.
#[verifier::external_body]
fn parse_i32(s: &str) -> (r: Option<i32>)
    ensures
        r == i32_of(s@),
{
    s.parse::<i32>().ok()
}

/// The group and status letter of the two-character code `x y`.
pub open spec fn status_code(x: char, y: char) -> Option<(ChangeGroup, Option<char>)> {
    if y == ' ' && (x == 'M' || x == 'A' || x == 'D') {
        Some((ChangeGroup::Staged, Some(x)))
    } else if x == ' ' && (y == 'M' || y == 'D') {
        Some((ChangeGroup::Unstaged, Some(y)))
    } else if (x == 'M' || x == 'A') && y == 'M' {
        Some((ChangeGroup::Unstaged, Some('M')))
    } else if x == '?' && y == '?' {
        Some((ChangeGroup::Untracked, Some('U')))
    } else if x == '!' && y == '!' {
        Some((ChangeGroup::Ignored, None))
    } else {
        None
    }
}

/// The entry of a porcelain line: a known code, a separator, then the path.
/// Lines shorter than three characters and unknown codes give nothing.
pub open spec fn status_line(c: Seq<char>) -> Option<(ChangeGroup, Option<char>, Seq<char>)> {
    if c.len() < 3 {
        None
    } else {
        match status_code(c[0], c[1]) {
            Some(gs) => Some((gs.0, gs.1, c.skip(3))),
            None => None,
        }
    }
}

/// The model of a status entry.
pub open spec fn entry_view(e: StatusEntry) -> (ChangeGroup, Option<char>, Seq<char>) {
    (e.group, e.status, e.path@)
}

/// The entries of the porcelain lines `lines`, in order.
pub open spec fn status_entries(lines: Seq<Seq<char>>) -> Seq<(ChangeGroup, Option<char>, Seq<char>)>
    decreases lines.len(),
{
    if lines.len() == 0 {
        Seq::empty()
    } else {
        let before = status_entries(lines.drop_last());
        match status_line(lines.last()) {
            Some(e) => before.push(e),
            None => before,
        }
    }
}

/// The characters `v[from..to]`.
fn slice_chars(v: &Vec<char>, from: usize, to: usize) -> (r: Vec<char>)
    requires
        from <= to <= v@.len(),
    ensures
        r@ == v@.subrange(from as int, to as int),
{
    let mut out: Vec<char> = Vec::new();
    let mut i: usize = from;
    while i < to
        invariant
            from <= i <= to <= v@.len(),
            out@ == v@.subrange(from as int, i as int),
        decreases to - i,
    {
        out.push(v[i]);
        assert(v@.subrange(from as int, i + 1) =~= v@.subrange(from as int, i as int).push(
            v@[i as int],
        ));
        i = i + 1;
    }
    out
}

/// Reads one porcelain status line.
pub fn parse_status_line(line: &str) -> (r: Option<StatusEntry>)
    ensures
        match status_line(line@) {
            Some(e) => r matches Some(x) && entry_view(x) == e,
            None => r is None,
        },
{
    let c = chars_of(line);
    if c.len() < 3 {
        return None;
    }
    let x = c[0];
    let y = c[1];
    let code: Option<(ChangeGroup, Option<char>)> = if y == ' ' && (x == 'M' || x == 'A' || x
        == 'D') {
        Some((ChangeGroup::Staged, Some(x)))
    } else if x == ' ' && (y == 'M' || y == 'D') {
        Some((ChangeGroup::Unstaged, Some(y)))
    } else if (x == 'M' || x == 'A') && y == 'M' {
        Some((ChangeGroup::Unstaged, Some('M')))
    } else if x == '?' && y == '?' {
        Some((ChangeGroup::Untracked, Some('U')))
    } else if x == '!' && y == '!' {
        Some((ChangeGroup::Ignored, None))
    } else {
        None
    };
    match code {
        Some((group, status)) => {
            let rest = slice_chars(&c, 3, c.len());
            assert(rest@ =~= c@.skip(3));
            Some(StatusEntry { group, status, path: string_of(&rest) })
        },
        None => None,
    }
}

/// Reads a porcelain status listing, keeping the lines with a known code, in order.
pub fn parse_status(text: &str) -> (r: Vec<StatusEntry>)
    ensures
        r@.map_values(|e: StatusEntry| entry_view(e)) == status_entries(lines_of(text@)),
{
    let lines = split_lines(text);
    let ghost ls = texts(lines@);
    let mut out: Vec<StatusEntry> = Vec::new();
    let mut i: usize = 0;
    while i < lines.len()
        invariant
            i <= lines.len(),
            ls == texts(lines@),
            ls == lines_of(text@),
            out@.map_values(|e: StatusEntry| entry_view(e)) == status_entries(ls.take(i as int)),
        decreases lines.len() - i,
    {
        let ghost before = out@;
        assert(ls.take(i + 1).drop_last() =~= ls.take(i as int));
        match parse_status_line(lines[i].as_str()) {
            Some(e) => {
                out.push(e);
                assert(out@.map_values(|e: StatusEntry| entry_view(e)) =~= before.map_values(
                    |e: StatusEntry| entry_view(e),
                ).push(entry_view(out@[before.len() as int])));
            },
            None => {},
        }
        i = i + 1;
    }
    assert(ls.take(lines@.len() as int) =~= ls);
    out
}

/// The state after one more status line of the file.
pub open spec fn file_step(s: FileState, c: Seq<char>) -> FileState {
    if "??"@.is_prefix_of(c) {
        FileState::Untracked
    } else if c.len() < 2 {
        s
    } else if c[0] == 'D' || c[1] == 'D' {
        FileState::Deleted
    } else if c[0] == 'M' || c[1] == 'M' {
        FileState::Modified
    } else if c[0] == 'A' {
        FileState::Added
    } else {
        s
    }
}

/// The state folded over all the status lines of the file, from `Clean`.
pub open spec fn file_state_of(lines: Seq<Seq<char>>) -> FileState
    decreases lines.len(),
{
    if lines.len() == 0 {
        FileState::Clean
    } else {
        file_step(file_state_of(lines.drop_last()), lines.last())
    }
}

/// The letter of a file state; empty for a clean file.
pub open spec fn state_code(s: FileState) -> Seq<char> {
    match s {
        FileState::Clean => ""@,
        FileState::Untracked => "U"@,
        FileState::Deleted => "D"@,
        FileState::Added => "A"@,
        FileState::Modified => "M"@,
    }
}

impl FileState {
    /// The letter of the state; empty for a clean file.
    pub fn code(&self) -> (r: &'static str)
        ensures
            r@ == state_code(*self),
    {
        match self {
            FileState::Clean => "",
            FileState::Untracked => "U",
            FileState::Deleted => "D",
            FileState::Added => "A",
            FileState::Modified => "M",
        }
    }
}

/// Applies one status line to the state of the file.
fn step_state(s: FileState, line: &str) -> (r: FileState)
    ensures
        r == file_step(s, line@),
{
    let c = chars_of(line);
    if c.len() >= 2 && c[0] == '?' && c[1] == '?' {
        assert("??"@.is_prefix_of(c@)) by {
            reveal_strlit("??");
            assert(c@.take(2) =~= "??"@);
        }
        return FileState::Untracked;
    }
    assert(!"??"@.is_prefix_of(c@)) by {
        reveal_strlit("??");
        if "??"@.is_prefix_of(c@) {
            assert(c@[0] == "??"@[0] && c@[1] == "??"@[1]);
        }
    }
    if c.len() < 2 {
        s
    } else if c[0] == 'D' || c[1] == 'D' {
        FileState::Deleted
    } else if c[0] == 'M' || c[1] == 'M' {
        FileState::Modified
    } else if c[0] == 'A' {
        FileState::Added
    } else {
        s
    }
}

/// The state of one file from its porcelain status listing.
pub fn file_state(text: &str) -> (r: FileState)
    ensures
        r == file_state_of(lines_of(text@)),
{
    let lines = split_lines(text);
    let ghost ls = texts(lines@);
    let mut state = FileState::Clean;
    let mut i: usize = 0;
    while i < lines.len()
        invariant
            i <= lines.len(),
            ls == texts(lines@),
            ls == lines_of(text@),
            state == file_state_of(ls.take(i as int)),
        decreases lines.len() - i,
    {
        assert(ls.take(i + 1).drop_last() =~= ls.take(i as int));
        state = step_state(state, lines[i].as_str());
        i = i + 1;
    }
    assert(ls.take(lines@.len() as int) =~= ls);
    state
}

/// A character of the graph drawing at the left of a log line.
pub open spec fn is_graph_char(c: char) -> bool {
    c == '|' || c == '\\' || c == '/' || c == '*' || c == ' '
}

/// The length of the graph drawing at the start of `c`.
pub open spec fn graph_len(c: Seq<char>) -> nat
    decreases c.len(),
{
    if c.len() == 0 || !is_graph_char(c[0]) {
        0
    } else {
        1 + graph_len(c.skip(1))
    }
}

/// The place of the first `|` in `s`, if any.
pub open spec fn first_bar(s: Seq<char>) -> Option<int>
    decreases s.len(),
{
    if s.len() == 0 {
        None
    } else if s[0] == '|' {
        Some(0)
    } else {
        match first_bar(s.skip(1)) {
            Some(i) => Some(i + 1),
            None => None,
        }
    }
}

/// `s` cut at its first `|`: the text before it, and the text after it if there was one.
pub open spec fn cut_at_bar(s: Seq<char>) -> (Seq<char>, Option<Seq<char>>) {
    match first_bar(s) {
        Some(i) => (s.take(i), Some(s.skip(i + 1))),
        None => (s, None),
    }
}

/// The untrimmed hash, message and refs fields of a log line's text,
/// split at the first two `|`; a missing field is `None`.
pub open spec fn log_fields(rest: Seq<char>) -> (Seq<char>, Option<Seq<char>>, Option<Seq<char>>) {
    let (f0, r1) = cut_at_bar(rest);
    match r1 {
        None => (f0, None, None),
        Some(r1) => {
            let (f1, r2) = cut_at_bar(r1);
            (f0, Some(f1), r2)
        },
    }
}

/// A field trimmed, or empty where it is missing.
pub open spec fn field_text(f: Option<Seq<char>>) -> Seq<char> {
    match f {
        Some(t) => trimmed_of(t),
        None => Seq::empty(),
    }
}

/// The model of a graph row.
pub open spec fn row_view(r: GraphRow) -> (Seq<char>, Seq<char>, Seq<char>, bool, bool) {
    (r.graph@, r.hash@, r.message@, r.is_head, r.remote)
}

/// The row of the log line `c`: its graph drawing, then the trimmed rest
/// split into hash, message and refs. A row with neither hash nor message
/// is a drawing only and flags nothing.
pub open spec fn graph_row(c: Seq<char>) -> (Seq<char>, Seq<char>, Seq<char>, bool, bool) {
    let g = graph_len(c) as int;
    let fields = log_fields(trimmed_of(c.skip(g)));
    let hash = trimmed_of(fields.0);
    let message = field_text(fields.1);
    let refs = field_text(fields.2);
    if hash.len() == 0 && message.len() == 0 {
        (c.take(g), Seq::empty(), Seq::empty(), false, false)
    } else {
        (c.take(g), hash, message, contains_run(refs, "HEAD"@), contains_run(refs, "origin"@))
    }
}

proof fn graph_len_is(c: Seq<char>, g: int)
    requires
        0 <= g <= c.len(),
        forall|k: int| 0 <= k < g ==> is_graph_char(#[trigger] c[k]),
        g == c.len() || !is_graph_char(c[g]),
    ensures
        graph_len(c) == g,
    decreases g,
{
    if g > 0 {
        assert(is_graph_char(c[0]));
        let t = c.skip(1);
        assert forall|k: int| 0 <= k < g - 1 implies is_graph_char(#[trigger] t[k]) by {
            assert(t[k] == c[k + 1]);
        }
        if g < c.len() {
            assert(t[g - 1] == c[g]);
        }
        graph_len_is(t, g - 1);
    }
}

proof fn first_bar_is(s: Seq<char>, i: int)
    requires
        0 <= i <= s.len(),
        forall|k: int| 0 <= k < i ==> #[trigger] s[k] != '|',
        i == s.len() || s[i] == '|',
    ensures
        i < s.len() ==> first_bar(s) == Some(i),
        i == s.len() ==> first_bar(s) is None,
    decreases i,
{
    if i > 0 {
        let t = s.skip(1);
        assert(s[0] != '|');
        assert forall|k: int| 0 <= k < i - 1 implies #[trigger] t[k] != '|' by {
            assert(t[k] == s[k + 1]);
        }
        if i < s.len() {
            assert(t[i - 1] == s[i]);
        }
        first_bar_is(t, i - 1);
    }
}

/// Cuts `s` at its first `|`.
fn cut_bar(s: &Vec<char>) -> (r: (Vec<char>, Option<Vec<char>>))
    ensures
        r.0@ == cut_at_bar(s@).0,
        match cut_at_bar(s@).1 {
            Some(t) => r.1 matches Some(v) && v@ == t,
            None => r.1 is None,
        },
{
    let mut i: usize = 0;
    while i < s.len() && s[i] != '|'
        invariant
            i <= s@.len(),
            forall|k: int| 0 <= k < i ==> #[trigger] s@[k] != '|',
        decreases s.len() - i,
    {
        i = i + 1;
    }
    proof {
        first_bar_is(s@, i as int);
    }
    if i == s.len() {
        let whole = slice_chars(s, 0, s.len());
        assert(whole@ =~= s@);
        (whole, None)
    } else {
        let before = slice_chars(s, 0, i);
        let after = slice_chars(s, i + 1, s.len());
        assert(before@ =~= s@.take(i as int));
        assert(after@ =~= s@.skip(i + 1));
        (before, Some(after))
    }
}

/// Trims the characters `v`.
fn trim_chars(v: &Vec<char>) -> (r: String)
    ensures
        r@ == trimmed_of(v@),
{
    let s = string_of(v);
    trim_text(s.as_str())
}

/// Reads one line of the graph log.
pub fn parse_graph_line(line: &str) -> (r: GraphRow)
    ensures
        row_view(r) == graph_row(line@),
{
    let c = chars_of(line);
    let mut g: usize = 0;
    while g < c.len() && (c[g] == '|' || c[g] == '\\' || c[g] == '/' || c[g] == '*' || c[g]
        == ' ')
        invariant
            g <= c@.len(),
            forall|k: int| 0 <= k < g ==> is_graph_char(#[trigger] c@[k]),
        decreases c.len() - g,
    {
        g = g + 1;
    }
    proof {
        graph_len_is(c@, g as int);
    }
    let drawing = slice_chars(&c, 0, g);
    assert(drawing@ =~= c@.take(g as int));
    let after = slice_chars(&c, g, c.len());
    assert(after@ =~= c@.skip(g as int));
    let rest = trim_chars(&after);
    let rest_chars = chars_of(rest.as_str());
    let (f0, r1) = cut_bar(&rest_chars);
    let hash = trim_chars(&f0);
    let (message, refs) = match r1 {
        Some(r1) => {
            let (f1, r2) = cut_bar(&r1);
            let message = trim_chars(&f1);
            let refs = match r2 {
                Some(r2) => trim_chars(&r2),
                None => String::new(),
            };
            (message, refs)
        },
        None => (String::new(), String::new()),
    };
    if hash.unicode_len() == 0 && message.unicode_len() == 0 {
        GraphRow {
            graph: string_of(&drawing),
            hash: String::new(),
            message: String::new(),
            is_head: false,
            remote: false,
        }
    } else {
        let is_head = contains_text(refs.as_str(), "HEAD");
        let remote = contains_text(refs.as_str(), "origin");
        GraphRow { graph: string_of(&drawing), hash, message, is_head, remote }
    }
}

/// Reads the graph log, one row per line.
pub fn parse_graph(text: &str) -> (r: Vec<GraphRow>)
    ensures
        r@.map_values(|x: GraphRow| row_view(x)) == lines_of(text@).map_values(
            |c: Seq<char>| graph_row(c),
        ),
{
    let lines = split_lines(text);
    let ghost ls = texts(lines@);
    let mut out: Vec<GraphRow> = Vec::new();
    let mut i: usize = 0;
    while i < lines.len()
        invariant
            i <= lines.len(),
            ls == texts(lines@),
            ls == lines_of(text@),
            out@.map_values(|x: GraphRow| row_view(x)) == ls.take(i as int).map_values(
                |c: Seq<char>| graph_row(c),
            ),
        decreases lines.len() - i,
    {
        let ghost before = out@;
        let row = parse_graph_line(lines[i].as_str());
        assert(row_view(row) == graph_row(ls[i as int]));
        out.push(row);
        assert(ls.take(i + 1) =~= ls.take(i as int).push(ls[i as int]));
        assert(out@.map_values(|x: GraphRow| row_view(x)) =~= before.map_values(
            |x: GraphRow| row_view(x),
        ).push(graph_row(ls[i as int])));
        assert(ls.take(i + 1).map_values(|c: Seq<char>| graph_row(c)) =~= ls.take(
            i as int,
        ).map_values(|c: Seq<char>| graph_row(c)).push(graph_row(ls[i as int])));
        i = i + 1;
    }
    assert(ls.take(lines@.len() as int) =~= ls);
    out
}

/// The commit count printed by a counting command, or 0 where the trimmed
/// text is not a number.
pub open spec fn count_of(text: Seq<char>) -> i32 {
    match i32_of(trimmed_of(text)) {
        Some(n) => n,
        None => 0,
    }
}

/// Reads the commit count printed by a counting command; 0 where the text
/// is not a number.
pub fn parse_count(text: &str) -> (r: i32)
    ensures
        r == count_of(text@),
{
    let t = trim_text(text);
    match parse_i32(t.as_str()) {
        Some(n) => n,
        None => 0,
    }
}

} // verus!
