use workspace_watch::git::{
    file_state, parse_count, parse_graph, parse_graph_line, parse_status, parse_status_line,
    ChangeGroup, FileState,
};

#[test]
fn status_lines_by_group() {
    let e = parse_status_line("M  src/a.rs").unwrap();
    assert_eq!((e.group, e.status, e.path.as_str()), (ChangeGroup::Staged, Some('M'), "src/a.rs"));
    let e = parse_status_line(" D old.txt").unwrap();
    assert_eq!((e.group, e.status), (ChangeGroup::Unstaged, Some('D')));
    let e = parse_status_line("AM new.rs").unwrap();
    assert_eq!((e.group, e.status), (ChangeGroup::Unstaged, Some('M')));
    let e = parse_status_line("?? notes.md").unwrap();
    assert_eq!((e.group, e.status, e.path.as_str()), (ChangeGroup::Untracked, Some('U'), "notes.md"));
    let e = parse_status_line("!! target/").unwrap();
    assert_eq!((e.group, e.status, e.path.as_str()), (ChangeGroup::Ignored, None, "target/"));
    assert!(parse_status_line("R  a -> b").is_none());
    assert!(parse_status_line("M ").is_none());
}

#[test]
fn status_listing_keeps_known_lines_in_order() {
    let entries = parse_status("M  a\nUU conflict\n?? b\n");
    let paths: Vec<&str> = entries.iter().map(|e| e.path.as_str()).collect();
    assert_eq!(paths, vec!["a", "b"]);
}

#[test]
fn file_state_folds_lines() {
    assert_eq!(file_state(""), FileState::Clean);
    assert_eq!(file_state("?? x"), FileState::Untracked);
    assert_eq!(file_state(" D x"), FileState::Deleted);
    assert_eq!(file_state("A  x"), FileState::Added);
    assert_eq!(file_state("AM x"), FileState::Modified);
    assert_eq!(file_state("A  x\nx"), FileState::Added);
    assert_eq!(FileState::Modified.code(), "M");
    assert_eq!(FileState::Clean.code(), "");
}

#[test]
fn graph_lines() {
    let r = parse_graph_line("* | abc123|Fix bug| (HEAD -> main, origin/main)");
    assert_eq!(r.graph, "* | ");
    assert_eq!(r.hash, "abc123");
    assert_eq!(r.message, "Fix bug");
    assert!(r.is_head && r.remote);
    let r = parse_graph_line("|\\");
    assert_eq!(r.graph, "|\\");
    assert_eq!(r.hash, "");
    assert!(!r.is_head);
    let r = parse_graph_line("* d4e5|msg with | bar|");
    assert_eq!(r.message, "msg with");
    assert!(!r.remote);
    assert_eq!(parse_graph("* a|b|\n|\n").len(), 2);
}

#[test]
fn commit_counts() {
    assert_eq!(parse_count(" 3\n"), 3);
    assert_eq!(parse_count("fatal: no upstream"), 0);
    assert_eq!(parse_count(""), 0);
}

#[test]
fn commit_count_edges() {
    assert_eq!(parse_count("+5"), 5);
    assert_eq!(parse_count("-12"), -12);
    assert_eq!(parse_count("2147483647"), 2147483647);
    assert_eq!(parse_count("2147483648"), 0);
    assert_eq!(parse_count("-"), 0);
    assert_eq!(parse_count("\u{3000}7\u{a0}"), 7);
    assert_eq!(parse_count("4 2"), 0);
}
