use cce_files::pages::browse::{BrowseState, DirEntry};
use cce_files::pages::chooser::{
    chosen_directory, is_double_click_open, name_box_update, open_action, open_candidate, open_with_command,
    page_index, row_menu, space_scan_due, NameBoxUpdate, OpenAction, OpenCandidate, RowMenuAction,
};
use cce_files::pages::space::SpaceState;
use cce_files::pages::Page;

fn state() -> BrowseState {
    let mut s = BrowseState::new("/d".to_string());
    s.entries = vec![DirEntry {
        name: "a.txt".to_string(),
        path: "/d/a.txt".to_string(),
        is_dir: false,
        size: 1,
        permissions: 0o644,
        modified: String::new(),
    }];
    s
}

#[test]
fn double_click_opens_files_only_within_the_time() {
    assert!(is_double_click_open(Some(2), 2, 300, Some((false, false)), false, false));
    assert!(!is_double_click_open(Some(2), 2, 500, Some((false, false)), false, false));
    assert!(!is_double_click_open(Some(1), 2, 10, Some((false, false)), false, false));
    assert!(!is_double_click_open(Some(2), 2, 10, Some((true, false)), false, false));
    assert!(is_double_click_open(Some(2), 2, 10, Some((true, true)), true, false));
    assert!(!is_double_click_open(Some(2), 2, 10, Some((true, true)), true, true));
    assert!(!is_double_click_open(Some(2), 2, 10, None, false, false));
}

#[test]
fn open_candidates() {
    let mut s = state();
    assert_eq!(open_candidate(false, &s, "  new.txt "), OpenCandidate::Named("/d/new.txt".to_string()));
    assert_eq!(open_candidate(false, &s, "   "), OpenCandidate::Nothing);
    s.selected = Some(0);
    assert_eq!(open_candidate(false, &s, ""), OpenCandidate::Selected("/d/a.txt".to_string()));
    assert_eq!(
        open_candidate(true, &s, "ignored"),
        OpenCandidate::Directory { selected: Some("/d/a.txt".to_string()), fallback: "/d".to_string() }
    );
}

#[test]
fn open_actions() {
    assert_eq!(open_action("/d/sub".to_string(), true, false, true), OpenAction::ReadDirectory("/d/sub".to_string()));
    assert_eq!(open_action("/d/proj".to_string(), true, true, true), OpenAction::Choose("/d/proj".to_string()));
    assert_eq!(open_action("/d/a.txt".to_string(), false, false, false), OpenAction::Open("/d/a.txt".to_string()));
    assert_eq!(chosen_directory(Some("/d/a.txt".to_string()), false, "/d".to_string()), "/d");
    assert_eq!(chosen_directory(Some("/d/sub".to_string()), true, "/d".to_string()), "/d/sub");
    assert_eq!(chosen_directory(None, true, "/d".to_string()), "/d");
}

#[test]
fn open_with_runs_the_trimmed_command() {
    assert_eq!(
        open_with_command("  vim -p ", "/d/a.txt"),
        Some(("vim".to_string(), vec!["-p".to_string(), "/d/a.txt".to_string()]))
    );
    assert_eq!(open_with_command(" ", "/d/a.txt"), None);
}

#[test]
fn name_box_follows_the_selection() {
    let mut s = state();
    assert_eq!(name_box_update(&s), NameBoxUpdate::Clear);
    s.selected = Some(0);
    assert_eq!(name_box_update(&s), NameBoxUpdate::Show("a.txt".to_string()));
    s.selected = Some(4);
    assert_eq!(name_box_update(&s), NameBoxUpdate::Keep);
}

#[test]
fn only_the_space_page_scans() {
    let space = SpaceState::new();
    assert!(space_scan_due(Page::Space, &space, "/d"));
    assert!(!space_scan_due(Page::Browse, &space, "/d"));
    assert_eq!(page_index(Page::Network), 1);
    assert_eq!(Page::all()[page_index(Page::Space)], Page::Space);
}

fn names(menu: &[(String, Option<RowMenuAction>)]) -> Vec<&str> {
    menu.iter().map(|(l, _)| l.as_str()).collect()
}

#[test]
fn row_menus() {
    let s = state();
    let file = &s.entries[0];
    let menu = row_menu(file, 0, false, false, Some("/h/.local/share/Trash/files".to_string()));
    assert_eq!(names(&menu), vec!["[File] a.txt", "Select", "Open with...", "Delete", "Open Trash"]);
    assert_eq!(menu[0].1, None);
    assert_eq!(menu[1].1, Some(RowMenuAction::SelectEntry(0)));
    assert_eq!(menu[2].1, Some(RowMenuAction::PromptOpenWith("/d/a.txt".to_string())));
    assert_eq!(menu[4].1, Some(RowMenuAction::NavigateToPath("/h/.local/share/Trash/files".to_string())));
    let dir = DirEntry { name: "p".to_string(), path: "/d/p".to_string(), is_dir: true, size: 0, permissions: 0o755, modified: String::new() };
    let project = row_menu(&dir, 2, true, false, None);
    assert_eq!(names(&project), vec!["[Directory] p", "Open Project", "Enter Directory", "Open with...", "Delete"]);
    assert_eq!(project[2].1, Some(RowMenuAction::NavigateToPath("/d/p".to_string())));
    let trashed = row_menu(&dir, 2, false, true, None);
    assert_eq!(names(&trashed), vec!["[Directory] p", "Open", "Open with...", "Restore", "Delete Permanently", "Empty Trash"]);
    assert_eq!(trashed[1].1, Some(RowMenuAction::NavigateTo(2)));
    assert_eq!(trashed[4].1, Some(RowMenuAction::DeleteEntryPermanent(2)));
}
