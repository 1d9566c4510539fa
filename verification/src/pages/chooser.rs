//! The main window's decisions around opening and choosing: what a
//! double click means, which path "open" (or, as a file chooser, "choose")
//! acts on, what happens to it, and the command an "Open with" dialog runs.
//! The window probes the filesystem between these steps.

use vstd::prelude::*;
use crate::pages::browse::{BrowseState, BrowseView, DirEntry};
use crate::services::trash::opt_view;
use crate::pages::Page;
use crate::path::{joined, path_join};
use crate::services::apps::{launch_command, launch_of};
use crate::spaces::{trim_str, trimmed};
use crate::text::copy_string;

verus! {

/// Two clicks on the same row closer together than this are a double click.
pub const DOUBLE_CLICK_MS: u128 = 500;

/// Whether a click on row `idx` completes a double click that opens it:
/// the previous click hit the same row within the double-click time, and
/// the row is a file, or, in a file chooser (not a directory chooser), a
/// project directory. `entry` is the row's (is_dir, is_project), when the
/// row exists.
pub open spec fn opens_on_double_click(
    last_clicked: Option<usize>,
    idx: usize,
    elapsed_ms: u128,
    entry: Option<(bool, bool)>,
    select_mode: bool,
    select_directory: bool,
) -> bool {
    last_clicked == Some(idx) && elapsed_ms < DOUBLE_CLICK_MS && match entry {
        Some((is_dir, is_project)) => !is_dir || (select_mode && !select_directory && is_project),
        None => false,
    }
}

/// Whether a click completes a double click that opens the row (see
/// `opens_on_double_click`).
pub fn is_double_click_open(
    last_clicked: Option<usize>,
    idx: usize,
    elapsed_ms: u128,
    entry: Option<(bool, bool)>,
    select_mode: bool,
    select_directory: bool,
) -> (r: bool)
    ensures
        r == opens_on_double_click(last_clicked, idx, elapsed_ms, entry, select_mode, select_directory),
{
    let same = match last_clicked {
        Some(i) => i == idx,
        None => false,
    };
    if !same || elapsed_ms >= DOUBLE_CLICK_MS {
        return false;
    }
    match entry {
        Some((is_dir, is_project)) => !is_dir || (select_mode && !select_directory && is_project),
        None => false,
    }
}

/// What "open" acts on.
#[derive(Debug, Clone, PartialEq, Eq)]
pub enum OpenCandidate {
    /// A directory chooser: the selection when it is a directory, else the
    /// current directory.
    Directory { selected: Option<String>, fallback: String },
    /// The name typed in the name box, under the current directory.
    Named(String),
    /// The selected entry.
    Selected(String),
    /// Nothing to open.
    Nothing,
}

/// What "open" acts on, as mathematical values.
pub enum OpenCandidateView {
    Directory { selected: Option<Seq<char>>, fallback: Seq<char> },
    Named(Seq<char>),
    Selected(Seq<char>),
    Nothing,
}

impl View for OpenCandidate {
    type V = OpenCandidateView;

    open spec fn view(&self) -> OpenCandidateView {
        match self {
            OpenCandidate::Directory { selected, fallback } => OpenCandidateView::Directory {
                selected: match selected {
                    Some(s) => Some(s@),
                    None => None,
                },
                fallback: fallback@,
            },
            OpenCandidate::Named(p) => OpenCandidateView::Named(p@),
            OpenCandidate::Selected(p) => OpenCandidateView::Selected(p@),
            OpenCandidate::Nothing => OpenCandidateView::Nothing,
        }
    }
}

/// The path of the selected entry, when the selection points into the
/// listing.
pub open spec fn selected_path_of(v: BrowseView) -> Option<Seq<char>> {
    match v.selected {
        Some(i) => if 0 <= i < v.entries.len() { Some(v.entries[i].path@) } else { None },
        None => None,
    }
}

/// What "open" acts on: in a directory chooser, the selection or the
/// current directory; otherwise the trimmed name in the name box under the
/// current directory, else the selected entry.
pub open spec fn open_candidate_of(select_directory: bool, v: BrowseView, name_text: Seq<char>) -> OpenCandidateView {
    if select_directory {
        OpenCandidateView::Directory { selected: selected_path_of(v), fallback: v.current_dir }
    } else if trimmed(name_text).len() > 0 {
        OpenCandidateView::Named(joined(v.current_dir, trimmed(name_text)))
    } else {
        match selected_path_of(v) {
            Some(p) => OpenCandidateView::Selected(p),
            None => OpenCandidateView::Nothing,
        }
    }
}

/// What "open" acts on (see `open_candidate_of`). `name_text` is the name
/// box's text (its edit buffer while it is being edited).
pub fn open_candidate(select_directory: bool, state: &BrowseState, name_text: &str) -> (r: OpenCandidate)
    ensures
        r@ == open_candidate_of(select_directory, state@, name_text@),
{
    if select_directory {
        return OpenCandidate::Directory { selected: state.selected_path(), fallback: copy_string(&state.current_dir) };
    }
    let name = trim_str(name_text);
    if name.unicode_len() > 0 {
        return OpenCandidate::Named(path_join(state.current_dir.as_str(), name.as_str()));
    }
    match state.selected_path() {
        Some(p) => OpenCandidate::Selected(p),
        None => OpenCandidate::Nothing,
    }
}

/// What opening a path does.
#[derive(Debug, Clone, PartialEq, Eq)]
pub enum OpenAction {
    /// Enter the directory.
    ReadDirectory(String),
    /// A chooser's answer: print the path and exit successfully.
    Choose(String),
    /// Open the file with its application.
    Open(String),
}

/// What opening `path` does, given whether it is a directory and a project
/// directory: an ordinary directory is entered; anything else is the
/// chooser's answer in a chooser, else opened.
pub fn open_action(path: String, is_dir: bool, is_project: bool, select_mode: bool) -> (r: OpenAction)
    ensures
        r == (if is_dir && !is_project {
            OpenAction::ReadDirectory(path)
        } else if select_mode {
            OpenAction::Choose(path)
        } else {
            OpenAction::Open(path)
        }),
{
    if is_dir && !is_project {
        OpenAction::ReadDirectory(path)
    } else if select_mode {
        OpenAction::Choose(path)
    } else {
        OpenAction::Open(path)
    }
}

/// A directory chooser's answer: the selection when it is a directory,
/// else the current directory.
pub fn chosen_directory(selected: Option<String>, selected_is_dir: bool, fallback: String) -> (r: String)
    ensures
        r@ == (match selected {
            Some(s) => if selected_is_dir { s@ } else { fallback@ },
            None => fallback@,
        }),
{
    match selected {
        Some(s) => if selected_is_dir { s } else { fallback },
        None => fallback,
    }
}

/// The program and arguments an "Open with" dialog runs on `path`: the
/// trimmed command's words, then the path; nothing for a blank command.
pub fn open_with_command(command_text: &str, path: &str) -> (r: Option<(String, Vec<String>)>)
    ensures
        match r {
            Some((p, args)) => {
                &&& launch_of(trimmed(command_text@), path@) matches Some((lp, largs))
                &&& p@ == lp
                &&& args@.len() == largs.len()
                &&& forall|k: int| 0 <= k < args@.len() ==> (#[trigger] args@[k])@ == largs[k]
            },
            None => launch_of(trimmed(command_text@), path@) is None,
        },
{
    let cmd = trim_str(command_text);
    launch_command(cmd.as_str(), path)
}

/// What the chooser's name box shows after the selection changed.
#[derive(Debug, Clone, PartialEq, Eq)]
pub enum NameBoxUpdate {
    /// The selected entry's name.
    Show(String),
    /// Nothing is selected: empty it.
    Clear,
    /// The selection points past the listing: leave it.
    Keep,
}

/// What the chooser's name box shows after a Browse message: the selected
/// entry's name, emptied when nothing is selected.
pub fn name_box_update(state: &BrowseState) -> (r: NameBoxUpdate)
    ensures
        match state.selected {
            Some(i) => if i < state.entries@.len() {
                r matches NameBoxUpdate::Show(n) && n@ == state.entries@[i as int].name@
            } else {
                r == NameBoxUpdate::Keep
            },
            None => r == NameBoxUpdate::Clear,
        },
{
    match state.selected {
        Some(i) => if i < state.entries.len() {
            NameBoxUpdate::Show(copy_string(&state.entries[i].name))
        } else {
            NameBoxUpdate::Keep
        },
        None => NameBoxUpdate::Clear,
    }
}

/// Whether switching to or navigating on `page` should start a scan of
/// `dir`: only the Space page scans, and only when it needs to.
pub fn space_scan_due(page: Page, space: &crate::pages::space::SpaceState, dir: &str) -> (r: bool)
    ensures
        r == (page == Page::Space && crate::pages::space::scan_needed(*space, dir@)),
{
    match page {
        Page::Space => space.needs_scan(dir),
        _ => false,
    }
}

/// The position of `page` among the pages (for the paginator).
pub fn page_index(page: Page) -> (r: usize)
    ensures
        seq![Page::Browse, Page::Network, Page::Space][r as int] == page,
        r < 3,
{
    match page {
        Page::Browse => 0,
        Page::Network => 1,
        Page::Space => 2,
    }
}

// ── The row context menu ────────────────────────────────────────────

/// What an entry of a listing row's context menu does.
#[derive(Debug, Clone, PartialEq, Eq)]
pub enum RowMenuAction {
    /// Open (or choose) the selection.
    SelectOpen,
    /// Go to a path.
    NavigateToPath(String),
    /// Enter the row's directory.
    NavigateTo(usize),
    /// Select the row.
    SelectEntry(usize),
    /// Ask which program opens the path.
    PromptOpenWith(String),
    /// Put the trashed row back where it came from.
    RestoreEntry(usize),
    /// Delete the trashed row for good.
    DeleteEntryPermanent(usize),
    /// Delete everything in the trash.
    EmptyTrash,
    /// Move the row to the trash.
    DeleteEntry(usize),
}

/// A row menu action as mathematical values.
pub enum RowMenuActionView {
    SelectOpen,
    NavigateToPath(Seq<char>),
    NavigateTo(int),
    SelectEntry(int),
    PromptOpenWith(Seq<char>),
    RestoreEntry(int),
    DeleteEntryPermanent(int),
    EmptyTrash,
    DeleteEntry(int),
}

impl View for RowMenuAction {
    type V = RowMenuActionView;

    open spec fn view(&self) -> RowMenuActionView {
        match self {
            RowMenuAction::SelectOpen => RowMenuActionView::SelectOpen,
            RowMenuAction::NavigateToPath(p) => RowMenuActionView::NavigateToPath(p@),
            RowMenuAction::NavigateTo(i) => RowMenuActionView::NavigateTo(*i as int),
            RowMenuAction::SelectEntry(i) => RowMenuActionView::SelectEntry(*i as int),
            RowMenuAction::PromptOpenWith(p) => RowMenuActionView::PromptOpenWith(p@),
            RowMenuAction::RestoreEntry(i) => RowMenuActionView::RestoreEntry(*i as int),
            RowMenuAction::DeleteEntryPermanent(i) => RowMenuActionView::DeleteEntryPermanent(*i as int),
            RowMenuAction::EmptyTrash => RowMenuActionView::EmptyTrash,
            RowMenuAction::DeleteEntry(i) => RowMenuActionView::DeleteEntry(*i as int),
        }
    }
}

/// A menu item as values: its label and what it does (a header does
/// nothing).
pub open spec fn menu_item_view(item: (String, Option<RowMenuAction>)) -> (Seq<char>, Option<RowMenuActionView>) {
    (item.0@, match item.1 {
        Some(a) => Some(a@),
        None => None,
    })
}

/// The context menu of listing row `idx` showing entry `e`: a header naming
/// it; for a directory "Open" (a project directory: "Open Project" and
/// "Enter Directory"), for a file "Select"; "Open with..."; then, inside the
/// trash's files directory, "Restore", "Delete Permanently" and "Empty
/// Trash", elsewhere "Delete" and, when there is a trash, "Open Trash".
pub open spec fn row_menu_of(
    e: DirEntry,
    idx: usize,
    entry_is_project: bool,
    in_trash_files_dir: bool,
    trash_files: Option<Seq<char>>,
) -> Seq<(Seq<char>, Option<RowMenuActionView>)> {
    let i = idx as int;
    let header = seq![((if e.is_dir { "[Directory] "@ } else { "[File] "@ }) + e.name@, None::<RowMenuActionView>)];
    let open = if e.is_dir {
        if entry_is_project {
            seq![
                ("Open Project"@, Some(RowMenuActionView::SelectOpen)),
                ("Enter Directory"@, Some(RowMenuActionView::NavigateToPath(e.path@))),
            ]
        } else {
            seq![("Open"@, Some(RowMenuActionView::NavigateTo(i)))]
        }
    } else {
        seq![("Select"@, Some(RowMenuActionView::SelectEntry(i)))]
    };
    let open_with = seq![("Open with..."@, Some(RowMenuActionView::PromptOpenWith(e.path@)))];
    let removal = if in_trash_files_dir {
        seq![
            ("Restore"@, Some(RowMenuActionView::RestoreEntry(i))),
            ("Delete Permanently"@, Some(RowMenuActionView::DeleteEntryPermanent(i))),
            ("Empty Trash"@, Some(RowMenuActionView::EmptyTrash)),
        ]
    } else {
        seq![("Delete"@, Some(RowMenuActionView::DeleteEntry(i)))] + match trash_files {
            Some(t) => seq![("Open Trash"@, Some(RowMenuActionView::NavigateToPath(t)))],
            None => Seq::empty(),
        }
    };
    header + open + open_with + removal
}

fn push_item(menu: &mut Vec<(String, Option<RowMenuAction>)>, label: &str, action: Option<RowMenuAction>)
    ensures
        final(menu)@.map_values(|it: (String, Option<RowMenuAction>)| menu_item_view(it))
            == old(menu)@.map_values(|it: (String, Option<RowMenuAction>)| menu_item_view(it))
                .push((label@, match action { Some(a) => Some(a@), None => None })),
{
    let ghost before = menu@;
    menu.push((label.to_owned(), action));
    proof {
        assert(menu@.map_values(|it: (String, Option<RowMenuAction>)| menu_item_view(it))
            =~= before.map_values(|it: (String, Option<RowMenuAction>)| menu_item_view(it)).push(menu_item_view(menu@.last())));
    }
}

/// The context menu of a listing row (see `row_menu_of`).
/// `entry_is_project` says whether the entry is a project directory,
/// `in_trash_files_dir` whether the listing is the trash's files directory,
/// and `trash_files` is that directory when there is a trash.
pub fn row_menu(
    entry: &DirEntry,
    idx: usize,
    entry_is_project: bool,
    in_trash_files_dir: bool,
    trash_files: Option<String>,
) -> (r: Vec<(String, Option<RowMenuAction>)>)
    ensures
        r@.map_values(|it: (String, Option<RowMenuAction>)| menu_item_view(it))
            == row_menu_of(*entry, idx, entry_is_project, in_trash_files_dir, opt_view(trash_files)),
{
    let mut menu: Vec<(String, Option<RowMenuAction>)> = Vec::new();
    let header = if entry.is_dir {
        crate::text::concat_str("[Directory] ", entry.name.as_str())
    } else {
        crate::text::concat_str("[File] ", entry.name.as_str())
    };
    push_item(&mut menu, header.as_str(), None);
    if entry.is_dir {
        if entry_is_project {
            push_item(&mut menu, "Open Project", Some(RowMenuAction::SelectOpen));
            push_item(&mut menu, "Enter Directory", Some(RowMenuAction::NavigateToPath(copy_string(&entry.path))));
        } else {
            push_item(&mut menu, "Open", Some(RowMenuAction::NavigateTo(idx)));
        }
    } else {
        push_item(&mut menu, "Select", Some(RowMenuAction::SelectEntry(idx)));
    }
    push_item(&mut menu, "Open with...", Some(RowMenuAction::PromptOpenWith(copy_string(&entry.path))));
    if in_trash_files_dir {
        push_item(&mut menu, "Restore", Some(RowMenuAction::RestoreEntry(idx)));
        push_item(&mut menu, "Delete Permanently", Some(RowMenuAction::DeleteEntryPermanent(idx)));
        push_item(&mut menu, "Empty Trash", Some(RowMenuAction::EmptyTrash));
    } else {
        push_item(&mut menu, "Delete", Some(RowMenuAction::DeleteEntry(idx)));
        match trash_files {
            Some(t) => push_item(&mut menu, "Open Trash", Some(RowMenuAction::NavigateToPath(t))),
            None => {},
        }
    }
    proof {
        assert(menu@.map_values(|it: (String, Option<RowMenuAction>)| menu_item_view(it))
            =~= row_menu_of(*entry, idx, entry_is_project, in_trash_files_dir, opt_view(trash_files)));
    }
    menu
}

} // verus!
