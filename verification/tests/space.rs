use cce_files::pages::space::{categories, elide, update, Category, SpaceMessage, SpaceState};
use cce_files::services::scan::{dir_node, file_node};

/// The character budget the drawing side derives from a width in pixels.
fn chars_for_width(width: f32) -> usize {
    (width / 5.2).floor().max(0.0) as usize
}

#[test]
fn category_maps_extensions() {
    assert_eq!(Category::of("photo.JPG"), Category::Image);
    assert_eq!(Category::of("main.rs"), Category::Code);
    assert_eq!(Category::of("disk.qcow2"), Category::Binary);
    assert_eq!(Category::of("notes.md"), Category::Document);
    assert_eq!(Category::of("bundle.tar.gz"), Category::Archive);
    // No extension at all; and a dotfile, whose "extension" is its name.
    assert_eq!(Category::of("README"), Category::Other);
    assert_eq!(Category::of(".bashrc"), Category::Other);
    // A dotfile that really does carry one is still classified.
    assert_eq!(Category::of(".config.toml"), Category::Document);
}

#[test]
fn categories_have_labels_and_colours() {
    assert_eq!(categories().len(), 8);
    assert_eq!(Category::Image.label(), "Images");
    assert_eq!(Category::Other.label(), "Other");
    assert_eq!(Category::Video.color_hex(), "#9b6bd6");
    assert_eq!(Category::of("song.FLAC"), Category::Audio);
    assert_eq!(Category::of("movie.mkv"), Category::Video);
}

#[test]
fn elide_respects_width() {
    assert_eq!(elide("hi", chars_for_width(0.0)), "");
    assert_eq!(elide("short", chars_for_width(200.0)), "short");
    let long = elide("a-very-long-file-name.txt", chars_for_width(30.0));
    assert!(long.ends_with('…'));
    assert!(long.chars().count() <= 6);
}

#[test]
fn elide_exact_cuts() {
    assert_eq!(elide("abcdef", 4), "abc…");
    assert_eq!(elide("abcdef", 1), "…");
    assert_eq!(elide("abcdef", 6), "abcdef");
}

fn tree() -> cce_files::services::scan::TreeNode {
    dir_node("d".to_string(), vec![file_node("f".to_string(), 7)])
}

#[test]
fn landed_scan_needs_no_rescan() {
    let mut state = SpaceState::new();
    assert!(state.needs_scan("/data"));
    state.begin_scan("/data");
    assert!(!state.needs_scan("/data"));
    update(&mut state, SpaceMessage::Progress { dir: "/data".to_string(), files: 3, bytes: 30 });
    assert_eq!(state.scan_files, 3);
    assert_eq!(state.scan_bytes, 30);
    update(&mut state, SpaceMessage::Scanned { dir: "/data/".to_string(), tree: tree() });
    assert!(!state.scanning);
    assert!(!state.needs_scan("/data"));
    assert!(state.needs_scan("/elsewhere"));
}

#[test]
fn stale_scan_results_are_dropped() {
    let mut state = SpaceState::new();
    state.begin_scan("/new");
    update(&mut state, SpaceMessage::Progress { dir: "/old".to_string(), files: 9, bytes: 90 });
    update(&mut state, SpaceMessage::Scanned { dir: "/old".to_string(), tree: tree() });
    assert!(state.scanning);
    assert_eq!(state.scan_files, 0);
    assert!(state.tree.is_none());
}

#[test]
fn failed_scan_lands() {
    let mut state = SpaceState::new();
    state.begin_scan("/x");
    update(&mut state, SpaceMessage::Failed("unreadable".to_string()));
    assert!(!state.scanning);
    assert_eq!(state.error, Some("unreadable".to_string()));
    assert!(state.tree.is_none());
}
