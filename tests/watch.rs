use workspace_watch::classify::{
    ends_with_ignored, is_cloud_marked, is_ignored_component, is_inside_git_dir,
    is_inside_ignored_dir, is_onedrive_path, is_temp_sync_file, is_transient_extension,
};
use workspace_watch::filter::{filter_batch, keeps_path};
use workspace_watch::session::{SessionAction, WatchEvent, WatchSession};
use workspace_watch::strategy::{
    select_strategy, strategy_for_lowered, NotificationStrategy, POLL_INTERVAL_SECS,
};
use workspace_watch::text::{begins_with, contains_text, matches_at, same_text};

fn strings(v: &[&str]) -> Vec<String> {
    v.iter().map(|s| s.to_string()).collect()
}

#[test]
fn scenario_mixed_batch_keeps_only_source() {
    let raw = strings(&[
        "/ws/src/a.ts",
        "/ws/node_modules/x.js",
        "/ws/.git/HEAD",
        "/ws/dist/out.js",
        "/tmp/outside.txt",
    ]);
    assert_eq!(filter_batch(&raw, "/ws"), strings(&["/ws/src/a.ts"]));
}

#[test]
fn scenario_transient_download_excluded() {
    assert!(!keeps_path("/ws/download.crdownload", "/ws"));
    assert!(keeps_path("/ws/notes.txt", "/ws"));
    let raw = strings(&["/ws/download.crdownload", "/ws/notes.txt"]);
    assert_eq!(filter_batch(&raw, "/ws"), strings(&["/ws/notes.txt"]));
}

#[test]
fn outside_root_is_excluded() {
    assert!(!keeps_path("/tmp/outside.txt", "/ws"));
    assert!(!keeps_path("/ws2/a.txt", "/ws"));
    assert!(!keeps_path("/w/a.txt", "/ws"));
    assert!(keeps_path("/ws/a.txt", "/ws"));
}

#[test]
fn nested_git_dir_is_excluded_at_any_depth() {
    assert!(is_inside_git_dir("/ws/.git/HEAD", "/ws"));
    assert!(is_inside_git_dir("/ws/sub/pkg/.git/objects/ab/cd", "/ws"));
    assert!(!is_inside_git_dir("/ws/sub/.gitignore", "/ws"));
    assert!(!is_inside_git_dir("/other/.git/HEAD", "/ws"));
    assert!(!keeps_path("/ws/sub/pkg/.git/objects/ab/cd", "/ws"));
    assert!(keeps_path("/ws/sub/.gitignore", "/ws"));
}

#[test]
fn ignored_directory_names() {
    for name in ["node_modules", ".git", "dist", "build", ".next"] {
        assert!(is_ignored_component(name));
    }
    assert!(!is_ignored_component("src"));
    assert!(!is_ignored_component("Dist"));
    assert!(ends_with_ignored("/ws/app/build"));
    assert!(!ends_with_ignored("/ws/app/build.rs"));
    assert!(is_inside_ignored_dir("/ws/a/.next/cache/x", "/ws"));
    assert!(!is_inside_ignored_dir("/ws/a/next/x", "/ws"));
    assert!(!keeps_path("/ws/app/build", "/ws"));
}

#[test]
fn transient_extensions_any_case() {
    assert!(is_temp_sync_file("/ws/a.tmp"));
    assert!(is_temp_sync_file("/ws/a.TMP"));
    assert!(is_temp_sync_file("/ws/b.CrDownload"));
    assert!(is_temp_sync_file("/ws/c.partial"));
    assert!(is_temp_sync_file("/ws/d.goutputstream-XYZ12"));
    assert!(is_temp_sync_file("/ws/d.GOUTPUT"));
    assert!(!is_temp_sync_file("/ws/Makefile"));
    assert!(!is_temp_sync_file("/ws/notes.txt"));
    assert!(!is_temp_sync_file("/ws/.tmp"));
    assert!(!keeps_path("/ws/src/x.Partial", "/ws"));
}

#[test]
fn transient_extension_lowered() {
    assert!(is_transient_extension("tmp"));
    assert!(is_transient_extension("goutputstream"));
    assert!(!is_transient_extension("TMP"));
    assert!(!is_transient_extension("tmpx"));
    assert!(!is_transient_extension(""));
}

#[test]
fn all_filtered_gives_no_signal() {
    let session = WatchSession::new("/ws".to_string());
    let raw = strings(&["/ws/.git/index", "/ws/a.tmp", "/elsewhere/x"]);
    assert!(matches!(session.handle(WatchEvent::Changed(raw)), SessionAction::Skip));
    assert!(matches!(session.handle(WatchEvent::Changed(Vec::new())), SessionAction::Skip));
}

#[test]
fn surviving_paths_are_emitted_in_order() {
    let session = WatchSession::new("/ws".to_string());
    let raw = strings(&["/ws/b.rs", "/ws/.git/HEAD", "/ws/a.rs"]);
    match session.handle(WatchEvent::Changed(raw)) {
        SessionAction::Emit(batch) => assert_eq!(batch, strings(&["/ws/b.rs", "/ws/a.rs"])),
        _ => panic!("expected an emitted batch"),
    }
}

#[test]
fn watcher_failure_is_reported() {
    let session = WatchSession::new("/ws".to_string());
    match session.handle(WatchEvent::Failed("lost".to_string())) {
        SessionAction::Report(msg) => assert_eq!(msg, "lost"),
        _ => panic!("expected a report"),
    }
}

#[test]
fn filtering_twice_gives_same_batch() {
    let raw = strings(&["/ws/a.ts", "/ws/dist/x.js", "/ws/b.tmp", "/ws/c/d.md", "/q/r"]);
    let once = filter_batch(&raw, "/ws");
    assert_eq!(filter_batch(&raw, "/ws"), once);
    assert_eq!(filter_batch(&once, "/ws"), once);
}

#[test]
fn strategy_examples() {
    assert_eq!(
        select_strategy("C:\\Users\\x\\OneDrive\\proj"),
        NotificationStrategy::Polling { interval_secs: 2, compare_contents: true }
    );
    assert_eq!(select_strategy("/home/x/proj"), NotificationStrategy::Native);
    assert_eq!(
        select_strategy("/mnt/SHAREPOINT/team"),
        NotificationStrategy::Polling { interval_secs: POLL_INTERVAL_SECS, compare_contents: true }
    );
    let session = WatchSession::new("/Users/x/OneDrive - Corp/p".to_string());
    assert_eq!(session.root(), "/Users/x/OneDrive - Corp/p");
    assert!(matches!(session.strategy(), NotificationStrategy::Polling { .. }));
}

#[test]
fn strategy_from_lowered_text() {
    assert_eq!(
        strategy_for_lowered("/users/x/onedrive/p"),
        NotificationStrategy::Polling { interval_secs: 2, compare_contents: true }
    );
    assert_eq!(strategy_for_lowered("/users/x/OneDrive/p"), NotificationStrategy::Native);
}

#[test]
fn cloud_markers() {
    assert!(is_onedrive_path("D:\\OneDrive\\x"));
    assert!(is_onedrive_path("/SharePoint/site"));
    assert!(!is_onedrive_path("/home/drive/one"));
    assert!(is_cloud_marked("xxsharepointyy"));
    assert!(!is_cloud_marked("ONEDRIVE"));
}

#[test]
fn text_helpers() {
    assert!(same_text("abc", "abc"));
    assert!(!same_text("abc", "abd"));
    assert!(!same_text("ab", "abc"));
    assert!(begins_with("goutput1", "goutput"));
    assert!(!begins_with("gout", "goutput"));
    assert!(contains_text("xonedrive", "onedrive"));
    assert!(contains_text("abc", ""));
    assert!(!contains_text("onedriv", "onedrive"));
    assert!(matches_at("hello", "ll", 2));
    assert!(!matches_at("hello", "ll", 1));
}
