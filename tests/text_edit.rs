use workspace_watch::replace::{plan_edit, FileEdit, ReplaceOptions, ReplaceResult, SearchResultInput};
use workspace_watch::search::{
    search_file, search_matcher, search_pattern, skips_entry, within_search_size, Matcher,
    SearchOptions,
};

fn opts(match_case: bool, whole_word: bool, regex: bool) -> SearchOptions {
    SearchOptions { match_case, whole_word, regex }
}

#[test]
fn pattern_escapes_literal_queries() {
    assert_eq!(search_pattern("a.b", opts(true, false, false)), "a\\.b");
    assert_eq!(search_pattern("a.b", opts(true, true, false)), "\\ba\\.b\\b");
    assert_eq!(search_pattern("a.b", opts(true, true, true)), "a.b");
}

#[test]
fn invalid_regex_is_an_error() {
    match Matcher::build("(", false) {
        Err(msg) => assert!(msg.starts_with("Invalid regex: ")),
        Ok(_) => panic!("an unbalanced group must not compile"),
    }
    assert!(search_matcher("(", opts(false, false, false)).is_ok());
    assert!(search_matcher("(", opts(false, false, true)).is_err());
}

#[test]
fn matching_lines_are_numbered_from_one() {
    let m = search_matcher("foo", opts(false, false, false)).ok().unwrap();
    let res = search_file(&m, "/ws/a.txt".to_string(), "foo\nbar\r\nFOO bar\n").unwrap();
    assert_eq!(res.file_path, "/ws/a.txt");
    let got: Vec<(usize, String)> = res.matches.iter().map(|l| (l.line, l.text.clone())).collect();
    assert_eq!(got, vec![(1, "foo".to_string()), (3, "FOO bar".to_string())]);
    assert!(search_file(&m, "/ws/b.txt".to_string(), "nothing here").is_none());
}

#[test]
fn match_case_and_whole_word() {
    let m = search_matcher("foo", opts(true, true, false)).ok().unwrap();
    assert!(m.is_match("a foo b"));
    assert!(!m.is_match("a FOO b"));
    assert!(!m.is_match("food"));
}

#[test]
fn search_walk_rules() {
    assert!(skips_entry("node_modules", 1));
    assert!(skips_entry("target", 2));
    assert!(!skips_entry("target", 0));
    assert!(!skips_entry("src", 1));
    assert!(within_search_size(1_000_000));
    assert!(!within_search_size(1_000_001));
}

#[test]
fn replace_next_takes_first_occurrence() {
    let o = ReplaceOptions { replace_next: true, replace_all: true };
    match plan_edit("a-b-a-b", "b", "XY", o) {
        FileEdit::ReplacedFirst(t) => assert_eq!(t, "a-XY-a-b"),
        _ => panic!("expected a first replacement"),
    }
    assert_eq!(plan_edit("a-b", "b", "c", o).count(), 1);
    assert!(plan_edit("a-b", "b", "c", o).stops());
}

#[test]
fn replace_all_counts_non_overlapping() {
    let o = ReplaceOptions { replace_next: false, replace_all: true };
    match plan_edit("aaaa-aa", "aa", "b", o) {
        FileEdit::ReplacedAll(t, n) => {
            assert_eq!(t, "bb-b");
            assert_eq!(n, 3);
        }
        _ => panic!("expected a full replacement"),
    }
    assert!(!plan_edit("aaaa", "aa", "b", o).stops());
}

#[test]
fn replace_without_match_or_query_changes_nothing() {
    let o = ReplaceOptions { replace_next: true, replace_all: true };
    assert!(matches!(plan_edit("abc", "z", "y", o), FileEdit::Unchanged));
    assert!(matches!(plan_edit("abc", "", "y", o), FileEdit::Unchanged));
    let none = ReplaceOptions { replace_next: false, replace_all: false };
    assert!(matches!(plan_edit("abc", "b", "y", none), FileEdit::Unchanged));
    assert_eq!(plan_edit("abc", "z", "y", o).count(), 0);
}

#[test]
fn replace_records() {
    let r = ReplaceResult { replaced: 4 };
    assert_eq!(r.replaced, 4);
    let input = SearchResultInput { file_path: "/ws/a".to_string() };
    assert_eq!(input.file_path, "/ws/a");
}

#[test]
fn pattern_escapes_every_metacharacter() {
    assert_eq!(search_pattern("a+b#c~d&e-f", opts(true, false, false)), "a\\+b\\#c\\~d\\&e\\-f");
    assert_eq!(search_pattern("x_y z", opts(true, false, false)), "x_y z");
}

#[test]
fn line_endings_in_search() {
    let m = search_matcher("foo", opts(true, false, false)).ok().unwrap();
    let res = search_file(&m, "/ws/c.txt".to_string(), "x\r\nfoo\r\nfoo\r").unwrap();
    let got: Vec<(usize, String)> = res.matches.iter().map(|l| (l.line, l.text.clone())).collect();
    assert_eq!(got, vec![(2, "foo".to_string()), (3, "foo\r".to_string())]);
}
