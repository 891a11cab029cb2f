//! The path model and the filesystem verdicts: parsing and rendering,
//! the ancestry walk, and the filtering of candidate lists.

use aldm::{
    choose_log_dirpath, FsPath, FsSnapshot, PathCheck, Permissions, ValidPaths,
};

fn probe_path(s: &str) -> FsPath {
    FsPath::parse(s)
}

fn snapshot_of(entries: &[(&str, bool, bool)]) -> FsSnapshot {
    let mut fs = FsSnapshot::new();
    for (path, readable, writable) in entries {
        fs.record(probe_path(path), *readable, *writable);
    }
    fs
}

#[test]
fn parse_and_render_round_trip() {
    assert_eq!(probe_path("/a/b/c").render(), "/a/b/c");
    assert_eq!(probe_path("a/b").render(), "/a/b");
    assert_eq!(probe_path("/a//b/").render(), "/a/b");
    assert_eq!(probe_path("/").render(), "/");
    assert_eq!(probe_path("").render(), "/");
}

#[test]
fn parse_splits_into_components() {
    let p = probe_path("/etc/aldm.yaml");
    assert_eq!(p.components, vec![String::from("etc"), String::from("aldm.yaml")]);
}

#[test]
fn same_path_compares_componentwise() {
    assert!(probe_path("/a/b").same_path(&probe_path("a/b/")));
    assert!(!probe_path("/a/b").same_path(&probe_path("/a")));
    assert!(!probe_path("/a/b").same_path(&probe_path("/a/c")));
}

#[test]
fn prefix_takes_leading_components() {
    let p = probe_path("/a/b/c");
    assert_eq!(p.prefix(2).render(), "/a/b");
    assert_eq!(p.prefix(0).render(), "/");
}

#[test]
fn snapshot_lookup_first_entry_wins() {
    let fs = snapshot_of(&[("/a", true, false), ("/a", false, true)]);
    assert_eq!(fs.lookup(&probe_path("/a")), Some((true, false)));
    assert_eq!(fs.lookup(&probe_path("/b")), None);
}

#[test]
fn largest_existing_ancestor_walks_upward() {
    // `/a` exists but `/a/b` does not: the nearest existing ancestor of
    // `/a/b/c` is `/a`.
    let fs = snapshot_of(&[("/a", true, true)]);
    let ancestor = fs.largest_existing_ancestor(&probe_path("/a/b/c"));
    assert_eq!(ancestor.expect("an ancestor").render(), "/a");
}

#[test]
fn largest_existing_ancestor_is_the_path_itself_when_it_exists() {
    let fs = snapshot_of(&[("/a", true, true), ("/a/b", true, true)]);
    let ancestor = fs.largest_existing_ancestor(&probe_path("/a/b"));
    assert_eq!(ancestor.expect("an ancestor").render(), "/a/b");
}

#[test]
fn largest_existing_ancestor_absent_when_nothing_exists() {
    // Not even the root is in the snapshot: no ancestor exists at all.
    let fs = FsSnapshot::new();
    assert!(fs.largest_existing_ancestor(&probe_path("/a/b/c")).is_none());
}

#[test]
fn readable_means_exists_and_readable() {
    let fs = snapshot_of(&[("/a", true, false), ("/b", false, true)]);
    assert!(probe_path("/a").is_readable(&fs));
    assert!(!probe_path("/b").is_readable(&fs));
    assert!(!probe_path("/c").is_readable(&fs));
}

#[test]
fn writable_covers_the_not_yet_existing_path() {
    let fs = snapshot_of(&[("/a", true, true), ("/b", true, false)]);
    assert!(probe_path("/a").is_writable(&fs));
    assert!(!probe_path("/b").is_writable(&fs));
    // `/a/new` does not exist; its nearest existing ancestor `/a` is
    // writable.
    assert!(probe_path("/a/new").is_writable(&fs));
    assert!(!probe_path("/b/new").is_writable(&fs));
}

#[test]
fn creatable_means_missing_with_writable_ancestor() {
    let fs = snapshot_of(&[("/a", true, true), ("/b", true, false)]);
    assert!(probe_path("/a/new").is_creatable(&fs));
    assert!(!probe_path("/b/new").is_creatable(&fs));
    // An existing path is not creatable, even though it is writable.
    assert!(!probe_path("/a").is_creatable(&fs));
    // No existing ancestor at all: not creatable.
    assert!(!probe_path("/c/new").is_creatable(&fs));
}

#[test]
fn option_candidate_absent_fails_every_check() {
    let fs = snapshot_of(&[("/a", true, true)]);
    let absent: Option<FsPath> = None;
    assert!(!absent.is_readable(&fs));
    assert!(!absent.is_writable(&fs));
    assert!(!absent.is_creatable(&fs));
    assert!(absent.largest_valid_subset(&fs).is_none());
    let present = Some(probe_path("/a"));
    assert!(present.is_readable(&fs));
    assert_eq!(present.largest_valid_subset(&fs).expect("ancestor").render(), "/a");
}

#[test]
fn first_valid_path_takes_the_highest_priority_match() {
    let fs = snapshot_of(&[("/a", false, true), ("/b", true, true), ("/c", true, true)]);
    let candidates = vec![probe_path("/a"), probe_path("/b"), probe_path("/c")];
    let first = candidates.first_readable_path(&fs).expect("a readable candidate");
    assert_eq!(first.render(), "/b");
    assert!(candidates.first_creatable_path(&fs).is_none());
}

#[test]
fn all_valid_paths_keep_the_priority_order() {
    let fs = snapshot_of(&[("/a", true, false), ("/b", false, false), ("/c", true, true)]);
    let candidates = vec![probe_path("/a"), probe_path("/b"), probe_path("/c")];
    let readable: Vec<String> =
        candidates.all_readable_paths(&fs).iter().map(|p| p.render()).collect();
    assert_eq!(readable, vec![String::from("/a"), String::from("/c")]);
    let writable: Vec<String> =
        candidates.all_writable_paths(&fs).iter().map(|p| p.render()).collect();
    assert_eq!(writable, vec![String::from("/c")]);
}

#[test]
fn optional_candidates_filter_out_absent_entries() {
    let fs = snapshot_of(&[("/a", true, true), ("/c", true, true)]);
    let candidates = vec![None, Some(probe_path("/a")), None, Some(probe_path("/c"))];
    let first = candidates.first_readable_path(&fs).expect("a readable candidate");
    assert_eq!(first.render(), "/a");
    let all: Vec<String> =
        candidates.all_readable_paths(&fs).iter().map(|p| p.render()).collect();
    assert_eq!(all, vec![String::from("/a"), String::from("/c")]);
}

#[test]
fn all_creatable_paths_filter_by_the_derived_verdict() {
    let fs = snapshot_of(&[("/a", true, true), ("/b", true, false)]);
    let candidates = vec![probe_path("/a/x"), probe_path("/b/x"), probe_path("/a")];
    let creatable: Vec<String> =
        candidates.all_creatable_paths(&fs).iter().map(|p| p.render()).collect();
    assert_eq!(creatable, vec![String::from("/a/x")]);
    let first = candidates
        .first_valid_path(&fs, PathCheck::Creatable)
        .expect("a creatable candidate");
    assert_eq!(first.render(), "/a/x");
}

#[test]
fn log_dirpath_prefers_a_writable_preference() {
    let fs = snapshot_of(&[("/logs", true, true), ("/ro", true, false)]);
    let chosen = choose_log_dirpath(
        Some(probe_path("/logs")),
        probe_path("/fallback"),
        &fs,
    );
    assert_eq!(chosen.render(), "/logs");
    let fell_back = choose_log_dirpath(
        Some(probe_path("/ro")),
        probe_path("/fallback"),
        &fs,
    );
    assert_eq!(fell_back.render(), "/fallback");
    let unset = choose_log_dirpath(None, probe_path("/fallback"), &fs);
    assert_eq!(unset.render(), "/fallback");
}
