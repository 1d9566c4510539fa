use cce_files::services::watch::{triggers_refresh, ChangeKind};
use cce_files::services::scan::{classify_entry, dir_node, file_node, progress_due, walk_allowed, EntryKind, MAX_DEPTH};

#[test]
fn directory_sizes_sum_and_children_sort_descending() {
    let sub = dir_node(
        "sub".to_string(),
        vec![file_node("mid.bin".to_string(), 500), file_node("big.bin".to_string(), 5000)],
    );
    assert_eq!(sub.size, 5500);
    assert_eq!(sub.children[0].name, "big.bin");
    assert_eq!(sub.children[1].name, "mid.bin");
    let root = dir_node("sum".to_string(), vec![file_node("small.txt".to_string(), 10), sub]);
    assert_eq!(root.size, 5510);
    assert!(root.is_dir);
    assert_eq!(root.children[0].name, "sub");
    assert_eq!(root.children[1].name, "small.txt");
    assert_eq!(dir_node("empty".to_string(), Vec::new()).size, 0);
}

#[test]
fn symlinks_and_other_devices_are_skipped() {
    assert_eq!(classify_entry(true, 1, 1, true, false), EntryKind::Skip);
    assert_eq!(classify_entry(false, 2, 1, true, false), EntryKind::Skip);
    assert_eq!(classify_entry(false, 1, 1, true, false), EntryKind::Descend);
    assert_eq!(classify_entry(false, 1, 1, false, true), EntryKind::Count);
    assert_eq!(classify_entry(false, 1, 1, false, false), EntryKind::Skip);
}

#[test]
fn walk_stops_on_cancel_and_depth() {
    assert!(walk_allowed(0, false));
    assert!(!walk_allowed(0, true));
    assert!(!walk_allowed(MAX_DEPTH, false));
    assert!(progress_due(150));
    assert!(!progress_due(149));
}

#[test]
fn only_content_changes_refresh() {
    assert!(triggers_refresh(ChangeKind::Create));
    assert!(triggers_refresh(ChangeKind::Modify));
    assert!(triggers_refresh(ChangeKind::Remove));
    assert!(!triggers_refresh(ChangeKind::Access));
    assert!(!triggers_refresh(ChangeKind::Any));
    assert!(!triggers_refresh(ChangeKind::Other));
}
