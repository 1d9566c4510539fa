use cce_files::pages::browse::{
    apply_filters, entry_icon, is_project_dir, key_action, next_selection_index, path_to_segment,
    update, BrowseMessage, BrowseNavigation, BrowseState, ChordHits, DirEntry, FixedKey, KeyAction,
    UpdateContext,
};
use cce_files::pages::browse::{listed, listing_row, VisibleColumns};
use cce_files::services::fs::FsRequest;

fn state_with_count(count: usize) -> BrowseState {
    let mut state = BrowseState::new("/home/test".to_string());
    state.entries = (0..count)
        .map(|i| DirEntry {
            name: format!("file_{i}"),
            path: format!("/tmp/file_{i}"),
            is_dir: i % 3 == 0,
            size: 1024 * i as u64,
            permissions: 0o644,
            modified: String::new(),
        })
        .collect();
    state
}

fn default_state() -> BrowseState {
    BrowseState::new("/home/test".to_string())
}

fn ctx() -> UpdateContext {
    UpdateContext { home: "/home/test".to_string(), target_is_project: false }
}

fn entry(name: &str, path: &str, is_dir: bool) -> DirEntry {
    DirEntry {
        name: name.to_string(),
        path: path.to_string(),
        is_dir,
        size: 0,
        permissions: 0o644,
        modified: String::new(),
    }
}

#[test]
fn down_from_none_selects_first_entry() {
    let state = state_with_count(3);
    assert_eq!(next_selection_index(&state, BrowseNavigation::Down), Some(0));
}

#[test]
fn up_from_none_selects_last_entry() {
    let state = state_with_count(3);
    assert_eq!(next_selection_index(&state, BrowseNavigation::Up), Some(2));
}

#[test]
fn navigation_stays_in_bounds() {
    let mut state = state_with_count(3);

    state.selected = Some(0);
    assert_eq!(next_selection_index(&state, BrowseNavigation::Up), Some(0));

    state.selected = Some(2);
    assert_eq!(next_selection_index(&state, BrowseNavigation::Down), Some(2));
}

#[test]
fn navigation_on_empty_listing_selects_nothing() {
    let state = state_with_count(0);
    assert_eq!(next_selection_index(&state, BrowseNavigation::Down), None);
    assert_eq!(next_selection_index(&state, BrowseNavigation::Up), None);
}

#[test]
fn navigation_moves_one_step() {
    let mut state = state_with_count(5);
    state.selected = Some(2);
    assert_eq!(next_selection_index(&state, BrowseNavigation::Up), Some(1));
    assert_eq!(next_selection_index(&state, BrowseNavigation::Down), Some(3));
}

#[test]
fn apply_filters_hides_dotfiles() {
    let mut state = default_state();
    state.all_entries = vec![
        DirEntry { name: ".hidden".into(), path: "/a/.hidden".into(), is_dir: false, size: 0, permissions: 0o644, modified: String::new() },
        DirEntry { name: "visible".into(), path: "/a/visible".into(), is_dir: false, size: 0, permissions: 0o644, modified: String::new() },
    ];
    state.show_hidden = false;
    apply_filters(&mut state);
    assert_eq!(state.entries.len(), 1);
    assert_eq!(state.entries[0].name, "visible");
}

#[test]
fn apply_filters_shows_dotfiles_when_enabled() {
    let mut state = default_state();
    state.all_entries = vec![
        DirEntry { name: ".hidden".into(), path: "/a/.hidden".into(), is_dir: false, size: 0, permissions: 0o644, modified: String::new() },
        DirEntry { name: "visible".into(), path: "/a/visible".into(), is_dir: false, size: 0, permissions: 0o644, modified: String::new() },
    ];
    state.show_hidden = true;
    apply_filters(&mut state);
    assert_eq!(state.entries.len(), 2);
}

#[test]
fn search_changed_filters_entries() {
    let mut state = default_state();
    state.all_entries = vec![entry("apple", "/a/apple", false), entry("banana", "/a/banana", false)];
    let req = update(&mut state, BrowseMessage::SearchChanged("ban".to_string()), &ctx());
    assert!(req.is_none());
    assert_eq!(state.entries.len(), 1);
    assert_eq!(state.entries[0].name, "banana");
    assert_eq!(state.selected, Some(0));
}

#[test]
fn search_is_case_insensitive() {
    let mut state = default_state();
    state.all_entries = vec![entry("Apple.TXT", "/a/Apple.TXT", false), entry("banana", "/a/banana", false)];
    let req = update(&mut state, BrowseMessage::SearchChanged("APPLE".to_string()), &ctx());
    assert!(req.is_none());
    assert_eq!(state.entries.len(), 1);
    assert_eq!(state.entries[0].name, "Apple.TXT");
}

#[test]
fn search_with_no_match_clears_selection() {
    let mut state = default_state();
    state.all_entries = vec![entry("apple", "/a/apple", false)];
    update(&mut state, BrowseMessage::SearchChanged("zzz".to_string()), &ctx());
    assert!(state.entries.is_empty());
    assert_eq!(state.selected, None);
}

#[test]
fn navigate_to_path_reads_directory() {
    let mut state = default_state();
    let req = update(&mut state, BrowseMessage::NavigateToPath("/tmp".to_string()), &ctx());
    assert!(matches!(req, Some(FsRequest::ReadDirectory(p)) if p == "/tmp"));
}

#[test]
fn navigate_to_directory_reads_it() {
    let mut state = default_state();
    state.entries = vec![entry("sub", "/tmp/cce_nav/sub", true)];
    let req = update(&mut state, BrowseMessage::NavigateTo(0), &ctx());
    assert!(matches!(req, Some(FsRequest::ReadDirectory(p)) if p == "/tmp/cce_nav/sub"));
}

#[test]
fn navigate_to_project_does_not_enter() {
    let mut state = default_state();
    state.entries = vec![entry("proj", "/tmp/cce_proj/proj", true)];
    let project = UpdateContext { home: "/home/test".to_string(), target_is_project: true };
    let req = update(&mut state, BrowseMessage::NavigateTo(0), &project);
    assert!(req.is_none());
}

#[test]
fn navigate_to_file_does_nothing() {
    let mut state = default_state();
    state.entries = vec![entry("f.txt", "/a/f.txt", false)];
    let req = update(&mut state, BrowseMessage::NavigateTo(0), &ctx());
    assert!(req.is_none());
}

#[test]
fn navigate_past_the_listing_does_nothing() {
    let mut state = default_state();
    state.entries = vec![entry("d", "/a/d", true)];
    let req = update(&mut state, BrowseMessage::NavigateTo(5), &ctx());
    assert!(req.is_none());
}

#[test]
fn directory_loaded_populates_and_saves() {
    let mut state = default_state();
    let entries = vec![entry("x", "/d/x", false), entry("y", "/d/y", true)];
    let req = update(&mut state, BrowseMessage::DirectoryLoaded("/d".to_string(), entries), &ctx());
    assert_eq!(state.current_dir, "/d");
    assert_eq!(state.entries.len(), 2);
    assert!(matches!(req, Some(FsRequest::SaveLastDir(p)) if p == "/d"));
}

#[test]
fn directory_loaded_clears_the_search() {
    let mut state = default_state();
    state.search_text = "zzz".to_string();
    state.search_visible = true;
    let entries = vec![entry("x", "/d/x", false)];
    update(&mut state, BrowseMessage::DirectoryLoaded("/d".to_string(), entries), &ctx());
    assert_eq!(state.search_text, "");
    assert!(!state.search_visible);
    assert_eq!(state.entries.len(), 1);
    assert_eq!(state.selected, Some(0));
}

#[test]
fn directory_refreshed_preserves_selection_by_path() {
    let mut state = default_state();
    state.current_dir = "/d".to_string();
    state.all_entries = vec![entry("a", "/d/a", false), entry("b", "/d/b", false)];
    apply_filters(&mut state);
    state.selected = Some(1); // "b"
    let new_entries = vec![entry("b", "/d/b", false), entry("a", "/d/a", false), entry("c", "/d/c", false)];
    let req = update(&mut state, BrowseMessage::DirectoryRefreshed("/d".to_string(), new_entries), &ctx());
    assert!(req.is_none());
    assert_eq!(
        state.selected.and_then(|i| state.entries.get(i)).map(|e| e.name.as_str()),
        Some("b")
    );
}

#[test]
fn directory_refreshed_drops_vanished_selection() {
    let mut state = default_state();
    state.current_dir = "/d".to_string();
    state.all_entries = vec![entry("a", "/d/a", false), entry("b", "/d/b", false)];
    apply_filters(&mut state);
    state.selected = Some(1);
    let new_entries = vec![entry("a", "/d/a", false)];
    update(&mut state, BrowseMessage::DirectoryRefreshed("/d/".to_string(), new_entries), &ctx());
    assert_eq!(state.entries.len(), 1);
    assert_eq!(state.selected, None);
}

#[test]
fn directory_refreshed_ignores_other_dir() {
    let mut state = default_state();
    state.current_dir = "/d".to_string();
    state.all_entries = vec![entry("a", "/d/a", false)];
    apply_filters(&mut state);
    let req = update(&mut state, BrowseMessage::DirectoryRefreshed("/other".to_string(), vec![entry("z", "/other/z", false)]), &ctx());
    assert!(req.is_none());
    assert_eq!(state.entries.len(), 1);
    assert_eq!(state.entries[0].name, "a");
}

#[test]
fn toggle_hidden_shows_dotfiles() {
    let mut state = default_state();
    state.all_entries = vec![entry(".hidden", "/a/.hidden", false), entry("visible", "/a/visible", false)];
    apply_filters(&mut state);
    assert_eq!(state.entries.len(), 1);
    let req = update(&mut state, BrowseMessage::ToggleHidden, &ctx());
    assert!(req.is_none());
    assert!(state.show_hidden);
    assert_eq!(state.entries.len(), 2);
}

#[test]
fn last_dir_loaded_some_reads_that_dir() {
    let mut state = default_state();
    let req = update(&mut state, BrowseMessage::LastDirLoaded(Some("/some/dir".to_string())), &ctx());
    assert!(matches!(req, Some(FsRequest::ReadDirectory(p)) if p == "/some/dir"));
}

#[test]
fn last_dir_loaded_none_falls_back() {
    let mut state = default_state();
    let req = update(&mut state, BrowseMessage::LastDirLoaded(None), &ctx());
    assert!(matches!(req, Some(FsRequest::ReadDirectory(_))));
}

#[test]
fn last_dir_loaded_none_reads_home() {
    let mut state = default_state();
    let req = update(&mut state, BrowseMessage::LastDirLoaded(None), &ctx());
    assert_eq!(req, Some(FsRequest::ReadDirectory("/home/test".to_string())));
}

#[test]
fn delete_entry_then_deleted_empties_listing() {
    let mut state = default_state();
    state.current_dir = "/t".to_string();
    state.all_entries = vec![entry("delete_me.txt", "/t/delete_me.txt", false)];
    state.entries = vec![entry("delete_me.txt", "/t/delete_me.txt", false)];
    state.selected = Some(0);
    let req = update(&mut state, BrowseMessage::DeleteEntry(0), &ctx());
    assert_eq!(req, Some(FsRequest::DeletePath("/t/delete_me.txt".to_string(), false)));
    let req2 = update(&mut state, BrowseMessage::Deleted("/t/delete_me.txt".to_string(), Ok(())), &ctx());
    assert_eq!(req2, Some(FsRequest::ReadDirectory("/t".to_string())));
    assert!(state.entries.is_empty());
    assert!(state.all_entries.is_empty());
    assert_eq!(state.selected, None);
}

#[test]
fn deleted_clamps_selection() {
    let mut state = default_state();
    state.current_dir = "/t".to_string();
    state.all_entries = vec![entry("a", "/t/a", false), entry("b", "/t/b", false)];
    state.entries = vec![entry("a", "/t/a", false), entry("b", "/t/b", false)];
    state.selected = Some(1);
    update(&mut state, BrowseMessage::Deleted("/t/b".to_string(), Ok(())), &ctx());
    assert_eq!(state.entries.len(), 1);
    assert_eq!(state.selected, Some(0));
}

#[test]
fn failed_delete_keeps_listing() {
    let mut state = default_state();
    state.current_dir = "/t".to_string();
    state.entries = vec![entry("a", "/t/a", false)];
    state.all_entries = vec![entry("a", "/t/a", false)];
    let req = update(&mut state, BrowseMessage::Deleted("/t/a".to_string(), Err("denied".to_string())), &ctx());
    assert_eq!(req, Some(FsRequest::ReadDirectory("/t".to_string())));
    assert_eq!(state.entries.len(), 1);
}

#[test]
fn test_component_reconstruction() {
    let current_dir = "/home/user/documents";

    // seg 0 is the root, then each index adds a component.
    assert_eq!(path_to_segment(current_dir, 0), "/");
    assert_eq!(path_to_segment(current_dir, 1), "/home");
    assert_eq!(path_to_segment(current_dir, 2), "/home/user");
    assert_eq!(path_to_segment(current_dir, 3), "/home/user/documents");
}

#[test]
fn project_dir_needs_a_state_file() {
    assert!(!is_project_dir(true, false, false));
    assert!(is_project_dir(true, true, false));
    assert!(is_project_dir(true, false, true));
    assert!(!is_project_dir(false, false, true));
}

#[test]
fn entry_icons() {
    assert_eq!(entry_icon(true, "docs"), "📁");
    assert_eq!(entry_icon(false, "song.mp3"), "🎵");
    assert_eq!(entry_icon(false, "archive.tar.gz"), "📦");
    assert_eq!(entry_icon(false, "README"), "📄");
}

#[test]
fn breadcrumb_lists_components() {
    let state = BrowseState::new("/home/user/docs".to_string());
    assert_eq!(state.breadcrumb_segments(), vec!["home".to_string(), "user".to_string(), "docs".to_string()]);
}

fn no_chords() -> ChordHits {
    ChordHits {
        open_file: false,
        select_next: false,
        select_prev: false,
        enter_dir: false,
        parent_dir: false,
        delete_entry: false,
        toggle_hidden: false,
    }
}

#[test]
fn arrow_keys_move_the_selection() {
    let state = state_with_count(3);
    assert_eq!(key_action(&state, FixedKey::ArrowDown, no_chords(), false, false, false), Some(KeyAction::SelectEntry(0)));
    assert_eq!(key_action(&state, FixedKey::ArrowUp, no_chords(), false, false, false), Some(KeyAction::SelectEntry(2)));
}

#[test]
fn backspace_goes_up_and_escape_cancels_a_chooser() {
    let state = BrowseState::new("/home/user".to_string());
    assert_eq!(
        key_action(&state, FixedKey::Backspace, no_chords(), false, false, false),
        Some(KeyAction::NavigateToPath("/home".to_string()))
    );
    assert_eq!(key_action(&state, FixedKey::Escape, no_chords(), true, false, false), Some(KeyAction::Cancel));
    assert_eq!(key_action(&state, FixedKey::Escape, no_chords(), false, false, false), None);
}

#[test]
fn open_chord_enters_directories_and_opens_files() {
    let mut state = state_with_count(3);
    let open = ChordHits { open_file: true, ..no_chords() };
    state.selected = Some(0);
    assert_eq!(key_action(&state, FixedKey::Other, open, false, false, false), Some(KeyAction::NavigateTo(0)));
    assert_eq!(key_action(&state, FixedKey::Other, open, false, false, true), Some(KeyAction::SelectOpen));
    state.selected = Some(1);
    assert_eq!(key_action(&state, FixedKey::Other, open, false, false, false), Some(KeyAction::SelectOpen));
    state.selected = None;
    assert_eq!(key_action(&state, FixedKey::Other, open, false, true, false), Some(KeyAction::SelectOpen));
    assert_eq!(key_action(&state, FixedKey::Other, open, false, false, false), None);
}

#[test]
fn other_chords() {
    let mut state = state_with_count(3);
    state.selected = Some(1);
    let delete = ChordHits { delete_entry: true, ..no_chords() };
    assert_eq!(key_action(&state, FixedKey::Other, delete, false, false, false), Some(KeyAction::DeleteEntry(1)));
    let hidden = ChordHits { toggle_hidden: true, ..no_chords() };
    assert_eq!(key_action(&state, FixedKey::Other, hidden, false, false, false), Some(KeyAction::ToggleHidden));
    let next = ChordHits { select_next: true, ..no_chords() };
    assert_eq!(key_action(&state, FixedKey::Other, next, false, false, false), Some(KeyAction::SelectEntry(2)));
    let enter = ChordHits { enter_dir: true, ..no_chords() };
    assert_eq!(key_action(&state, FixedKey::Other, enter, false, false, false), None);
    assert_eq!(key_action(&state, FixedKey::Other, no_chords(), false, false, false), None);
}

#[test]
fn listing_rows_carry_the_visible_columns() {
    let mut e = entry("song.mp3", "/m/song.mp3", false);
    e.permissions = 0o644;
    e.modified = "2024-01-01 10:00".to_string();
    let all = VisibleColumns { size: true, permissions: true, modified: true };
    let row = listing_row(&e, 3, Some(3), all, "1.5 K");
    assert_eq!(row.cells, vec!["song.mp3", "1.5 K", "-rw-r--r--", "2024-01-01 10:00"]);
    assert_eq!(row.icon, Some("🎵".to_string()));
    assert!(row.selected);
    let d = entry("docs", "/m/docs", true);
    let some = VisibleColumns { size: true, permissions: false, modified: false };
    let row = listing_row(&d, 0, Some(3), some, "4.0 K");
    assert_eq!(row.cells, vec!["docs", "—"]);
    assert!(!row.selected);
}

#[test]
fn listing_filter_on_lowered_names() {
    let q: Vec<char> = "ban".chars().collect();
    assert!(listed("Banana", "banana", false, &q));
    assert!(!listed("Apple", "apple", false, &q));
    assert!(!listed(".banana", ".banana", false, &q));
    assert!(listed(".banana", ".banana", true, &q));
    assert!(listed("x", "x", false, &Vec::new()));
}
