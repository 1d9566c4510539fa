//! The Browse page's model: the directory being shown, its listing, the
//! hidden-file and search filters, the selection, and how each message
//! changes them and which filesystem request it asks for.

use vstd::prelude::*;
use crate::path::{
    components, copy_chars, is_absolute, parent, parts_view, path_parent, path_parts, paths_equal, render,
    render_parts, same_path,
};
use crate::row_list::Row;
use crate::services::fs::{format_permissions, permission_text, FsRequest, RequestView, request_view, is_listing_of, read_directory_internal};
use crate::text::{after_last, chars_after_last, is_one_of, one_of, chars_of, contains_chars, contains_seq, copy_string, lowercase, starts_with_char, to_lowercase};

verus! {

// ── Data ────────────────────────────────────────────────────────────

/// One row of a directory listing.
#[derive(Debug, Clone)]
pub struct DirEntry {
    pub name: String,
    pub path: String,
    pub is_dir: bool,
    pub size: u64,
    pub permissions: u32,
    pub modified: String,
}

impl DirEntry {
    /// An identical copy.
    pub fn duplicate(&self) -> (r: DirEntry)
        ensures
            r == *self,
    {
        DirEntry {
            name: copy_string(&self.name),
            path: copy_string(&self.path),
            is_dir: self.is_dir,
            size: self.size,
            permissions: self.permissions,
            modified: copy_string(&self.modified),
        }
    }
}

/// The Browse page's state. The search box is held as its text, whether it
/// is being edited, and its edit buffer.
#[derive(Debug, Clone)]
pub struct BrowseState {
    pub current_dir: String,
    pub all_entries: Vec<DirEntry>,
    pub entries: Vec<DirEntry>,
    pub show_hidden: bool,
    pub search_visible: bool,
    pub search_text: String,
    pub search_editing: bool,
    pub search_edit_buffer: String,
    pub selected: Option<usize>,
}

/// The Browse state as mathematical values.
pub struct BrowseView {
    pub current_dir: Seq<char>,
    pub all_entries: Seq<DirEntry>,
    pub entries: Seq<DirEntry>,
    pub show_hidden: bool,
    pub search_visible: bool,
    pub search_text: Seq<char>,
    pub search_editing: bool,
    pub search_edit_buffer: Seq<char>,
    pub selected: Option<int>,
}

pub open spec fn opt_int(o: Option<usize>) -> Option<int> {
    match o {
        Some(i) => Some(i as int),
        None => None,
    }
}

impl View for BrowseState {
    type V = BrowseView;

    open spec fn view(&self) -> BrowseView {
        BrowseView {
            current_dir: self.current_dir@,
            all_entries: self.all_entries@,
            entries: self.entries@,
            show_hidden: self.show_hidden,
            search_visible: self.search_visible,
            search_text: self.search_text@,
            search_editing: self.search_editing,
            search_edit_buffer: self.search_edit_buffer@,
            selected: opt_int(self.selected),
        }
    }
}

#[derive(Debug)]
pub enum BrowseMessage {
    SearchChanged(String),
    SelectEntry(usize),
    NavigateTo(usize),
    NavigateToPath(String),
    DirectoryLoaded(String, Vec<DirEntry>),
    DirectoryRefreshed(String, Vec<DirEntry>),
    ToggleHidden,
    DeleteEntry(usize),
    Deleted(String, Result<(), String>),
    LastDirLoaded(Option<String>),
}

#[derive(Debug, Clone, Copy, PartialEq, Eq)]
pub enum BrowseNavigation {
    Up,
    Down,
}

/// What the filesystem and the environment say, gathered by the caller
/// before an update: the home directory (`$HOME`, else `/`), and whether the
/// entry a `NavigateTo` points at is a project directory.
pub struct UpdateContext {
    pub home: String,
    pub target_is_project: bool,
}

impl BrowseState {
    /// An empty Browse state rooted at `initial_dir`.
    pub fn new(initial_dir: String) -> (r: BrowseState)
        ensures
            r@.current_dir == initial_dir@,
            r@.all_entries.len() == 0,
            r@.entries.len() == 0,
            !r.show_hidden,
            !r.search_visible,
            r@.search_text.len() == 0,
            !r.search_editing,
            r@.search_edit_buffer.len() == 0,
            r.selected is None,
    {
        BrowseState {
            current_dir: initial_dir,
            all_entries: Vec::new(),
            entries: Vec::new(),
            show_hidden: false,
            search_visible: false,
            search_text: String::new(),
            search_editing: false,
            search_edit_buffer: String::new(),
            selected: None,
        }
    }

    /// Path of the currently selected entry, if any.
    pub fn selected_path(&self) -> (r: Option<String>)
        ensures
            match self.selected {
                Some(i) => if i < self.entries@.len() {
                    r is Some && r->0@ == self.entries@[i as int].path@
                } else {
                    r is None
                },
                None => r is None,
            },
    {
        match self.selected {
            Some(i) => if i < self.entries.len() {
                Some(copy_string(&self.entries[i].path))
            } else {
                None
            },
            None => None,
        }
    }

    /// The breadcrumb's segments: every component of the current directory
    /// after the root.
    pub fn breadcrumb_segments(&self) -> (r: Vec<String>)
        ensures
            r@.map_values(|s: String| s@) == components(self.current_dir@),
    {
        let pp = path_parts(self.current_dir.as_str());
        let mut out: Vec<String> = Vec::new();
        let mut i: usize = 0;
        while i < pp.parts.len()
            invariant
                i <= pp.parts@.len(),
                parts_view(pp.parts@) == components(self.current_dir@),
                out@.map_values(|s: String| s@) == parts_view(pp.parts@).take(i as int),
            decreases pp.parts@.len() - i,
        {
            let s = crate::text::string_from_chars(pp.parts[i].as_slice());
            let ghost before = out@;
            out.push(s);
            proof {
                assert(out@.map_values(|s: String| s@) =~= before.map_values(|s: String| s@).push(pp.parts@[i as int]@));
                assert(parts_view(pp.parts@)[i as int] == pp.parts@[i as int]@);
                assert(parts_view(pp.parts@).take(i + 1) =~= parts_view(pp.parts@).take(i as int).push(pp.parts@[i as int]@));
            }
            i = i + 1;
        }
        proof {
            assert(parts_view(pp.parts@).take(pp.parts@.len() as int) =~= parts_view(pp.parts@));
        }
        out
    }
}

/// A directory is a project (opened, not entered) when it is a directory
/// holding a `state.json` or a `state.kdl`.
pub fn is_project_dir(is_dir: bool, has_state_json: bool, has_state_kdl: bool) -> (r: bool)
    ensures
        r == (is_dir && (has_state_json || has_state_kdl)),
{
    is_dir && (has_state_json || has_state_kdl)
}

// ── Listing ─────────────────────────────────────────────────────────

/// Order a directory listing read by the caller as the page shows it (see
/// `read_directory_internal`).
pub fn read_directory(listing: Vec<DirEntry>) -> (r: Vec<DirEntry>)
    ensures
        is_listing_of(r@, listing@),
{
    read_directory_internal(listing)
}

/// The icon a listing row shows: a folder for directories, else one chosen
/// by the text after the name's last `.` (the whole name when it has none).
pub open spec fn spec_entry_icon(is_dir: bool, name: Seq<char>) -> &'static str {
    let ext = after_last(name, '.');
    if is_dir {
        "📁"
    } else if one_of(ext, seq!["rs", "toml", "json", "yaml", "yml"]) {
        "📄"
    } else if one_of(ext, seq!["png", "jpg", "jpeg", "svg", "gif"]) {
        "🖼"
    } else if one_of(ext, seq!["mp3", "wav", "flac", "ogg"]) {
        "🎵"
    } else if one_of(ext, seq!["mp4", "mkv", "avi", "webm"]) {
        "🎬"
    } else if one_of(ext, seq!["zip", "tar", "gz", "bz2", "xz"]) {
        "📦"
    } else if one_of(ext, seq!["py", "sh", "bash"]) {
        "📜"
    } else {
        "📄"
    }
}

pub fn entry_icon(is_dir: bool, name: &str) -> (r: &'static str)
    ensures
        r == spec_entry_icon(is_dir, name@),
{
    if is_dir {
        return "📁";
    }
    let ext = chars_after_last(&chars_of(name), '.');
    if is_one_of(&ext, &["rs", "toml", "json", "yaml", "yml"]) {
        "📄"
    } else if is_one_of(&ext, &["png", "jpg", "jpeg", "svg", "gif"]) {
        "🖼"
    } else if is_one_of(&ext, &["mp3", "wav", "flac", "ogg"]) {
        "🎵"
    } else if is_one_of(&ext, &["mp4", "mkv", "avi", "webm"]) {
        "🎬"
    } else if is_one_of(&ext, &["zip", "tar", "gz", "bz2", "xz"]) {
        "📦"
    } else if is_one_of(&ext, &["py", "sh", "bash"]) {
        "📜"
    } else {
        "📄"
    }
}

/// Which of the listing's optional columns are shown (the drawing side
/// decides by the list's width).
#[derive(Debug, Clone, Copy, PartialEq, Eq)]
pub struct VisibleColumns {
    pub size: bool,
    pub permissions: bool,
    pub modified: bool,
}

/// The cells of an entry's listing row: its name, then, for each shown
/// column, its size (`—` for a directory, else `size_text`), its mode bits
/// and its modification time.
pub open spec fn row_cells(e: DirEntry, columns: VisibleColumns, size_text: Seq<char>) -> Seq<Seq<char>> {
    seq![e.name@]
        + (if columns.size { seq![if e.is_dir { "—"@ } else { size_text }] } else { Seq::empty() })
        + (if columns.permissions { seq![permission_text(e.permissions)] } else { Seq::empty() })
        + (if columns.modified { seq![e.modified@] } else { Seq::empty() })
}

/// The listing row of entry `idx`: its cells, its icon, and whether it is
/// the selected one. `size_text` is the entry's size as the drawing side
/// formats it.
pub fn listing_row(entry: &DirEntry, idx: usize, selected: Option<usize>, columns: VisibleColumns, size_text: &str) -> (r: Row)
    ensures
        r.cells@.map_values(|c: String| c@) == row_cells(*entry, columns, size_text@),
        r.icon matches Some(i) && i@ == spec_entry_icon(entry.is_dir, entry.name@)@,
        r.selected == (selected == Some(idx)),
{
    let mut cells: Vec<String> = Vec::new();
    cells.push(copy_string(&entry.name));
    let ghost mut expect: Seq<Seq<char>> = seq![entry.name@];
    proof {
        assert(cells@.map_values(|c: String| c@) =~= expect);
    }
    if columns.size {
        let t = if entry.is_dir { String::from_str("—") } else { size_text.to_owned() };
        let ghost before = cells@;
        cells.push(t);
        proof {
            expect = expect + seq![if entry.is_dir { "—"@ } else { size_text@ }];
            assert(cells@.map_values(|c: String| c@) =~= before.map_values(|c: String| c@).push(cells@.last()@));
            assert(cells@.map_values(|c: String| c@) =~= expect);
        }
    } else {
        proof {
            assert(expect + Seq::<Seq<char>>::empty() =~= expect);
            expect = expect + Seq::<Seq<char>>::empty();
        }
    }
    if columns.permissions {
        let t = format_permissions(entry.permissions);
        let ghost before = cells@;
        cells.push(t);
        proof {
            expect = expect + seq![permission_text(entry.permissions)];
            assert(cells@.map_values(|c: String| c@) =~= before.map_values(|c: String| c@).push(cells@.last()@));
            assert(cells@.map_values(|c: String| c@) =~= expect);
        }
    } else {
        proof {
            assert(expect + Seq::<Seq<char>>::empty() =~= expect);
            expect = expect + Seq::<Seq<char>>::empty();
        }
    }
    if columns.modified {
        let t = copy_string(&entry.modified);
        let ghost before = cells@;
        cells.push(t);
        proof {
            expect = expect + seq![entry.modified@];
            assert(cells@.map_values(|c: String| c@) =~= before.map_values(|c: String| c@).push(cells@.last()@));
            assert(cells@.map_values(|c: String| c@) =~= expect);
        }
    } else {
        proof {
            assert(expect + Seq::<Seq<char>>::empty() =~= expect);
            expect = expect + Seq::<Seq<char>>::empty();
        }
    }
    let icon = entry_icon(entry.is_dir, entry.name.as_str());
    let is_selected = match selected {
        Some(i) => i == idx,
        None => false,
    };
    Row { cells, icon: Some(icon.to_owned()), selected: is_selected }
}

// ── Breadcrumb segments ─────────────────────────────────────────────

/// How many components the ancestor for breadcrumb segment `seg` keeps:
/// segment 0 is the root of an absolute path; each later index adds one
/// component. A relative path has no root segment, so 0 keeps it whole.
pub open spec fn segment_depth(absolute: bool, n: int, seg: int) -> int {
    if seg == 0 {
        if absolute { 0 } else { n }
    } else if seg < n {
        seg
    } else {
        n
    }
}

/// The ancestor of `dir` that breadcrumb segment `seg` names.
pub open spec fn segment_path(dir: Seq<char>, seg: int) -> Seq<char> {
    let c = components(dir);
    render(is_absolute(dir), c.take(segment_depth(is_absolute(dir), c.len() as int, seg)))
}

/// Reconstruct the ancestor path for a clicked breadcrumb segment index.
/// `seg == 0` is the root `/`; each subsequent index adds one path component.
pub fn path_to_segment(current_dir: &str, seg: usize) -> (r: String)
    ensures
        r@ == segment_path(current_dir@, seg as int),
{
    let pp = path_parts(current_dir);
    let n = pp.parts.len();
    let k = if seg == 0 {
        if pp.absolute { 0 } else { n }
    } else if seg < n {
        seg
    } else {
        n
    };
    render_parts(pp.absolute, &pp.parts, k)
}

// ── Keyboard navigation ─────────────────────────────────────────────

/// The selection an arrow key moves to: one step up or down, clamped to the
/// list; from no selection, Down picks the first entry and Up the last.
pub open spec fn next_selection(len: int, selected: Option<int>, direction: BrowseNavigation) -> Option<int> {
    if len == 0 {
        None
    } else {
        match (selected, direction) {
            (Some(i), BrowseNavigation::Up) => Some(if i > 0 { i - 1 } else { 0 }),
            (Some(i), BrowseNavigation::Down) => Some(if i + 1 < len - 1 { i + 1 } else { len - 1 }),
            (None, BrowseNavigation::Up) => Some(len - 1),
            (None, BrowseNavigation::Down) => Some(0),
        }
    }
}

pub fn next_selection_index(state: &BrowseState, direction: BrowseNavigation) -> (r: Option<usize>)
    ensures
        opt_int(r) == next_selection(state.entries@.len() as int, opt_int(state.selected), direction),
{
    let len = state.entries.len();
    if len == 0 {
        return None;
    }
    match (state.selected, direction) {
        (Some(index), BrowseNavigation::Up) => Some(if index > 0 { index - 1 } else { 0 }),
        (Some(index), BrowseNavigation::Down) => Some(
            if index < len - 1 && index + 1 < len - 1 { index + 1 } else { len - 1 },
        ),
        (None, BrowseNavigation::Up) => Some(len - 1),
        (None, BrowseNavigation::Down) => Some(0),
    }
}

// ── Filtering ───────────────────────────────────────────────────────

/// A dotfile: its name starts with `.`.
pub open spec fn is_dotfile(e: DirEntry) -> bool {
    e.name@.len() > 0 && e.name@[0] == '.'
}

/// Whether a name is listed, from the name, its lower-cased form, whether
/// hidden files are shown and the lower-cased query: a dotfile only when
/// hidden files are shown, and, under a non-empty query, only a name whose
/// lower-cased form contains it.
pub open spec fn listed_by(name: Seq<char>, name_lowered: Seq<char>, show_hidden: bool, query: Seq<char>) -> bool {
    &&& show_hidden || !(name.len() > 0 && name[0] == '.')
    &&& query.len() == 0 || contains_seq(name_lowered, query)
}

/// Whether an entry is listed (see `listed_by`), its name lower-cased.
pub open spec fn is_shown(e: DirEntry, show_hidden: bool, query: Seq<char>) -> bool {
    listed_by(e.name@, lowercase(e.name@), show_hidden, query)
}

/// The query the filter uses: the search box's edit buffer while it is
/// being edited, else its text, lower-cased.
pub open spec fn search_query(v: BrowseView) -> Seq<char> {
    lowercase(if v.search_editing { v.search_edit_buffer } else { v.search_text })
}

/// The entries of `all` that are listed, in their order.
pub open spec fn shown_entries(all: Seq<DirEntry>, show_hidden: bool, query: Seq<char>) -> Seq<DirEntry> {
    all.filter(|e: DirEntry| is_shown(e, show_hidden, query))
}

/// The state after re-filtering: the listed entries, with the first one
/// selected (no selection when nothing is listed).
pub open spec fn refiltered(v: BrowseView) -> BrowseView {
    let es = shown_entries(v.all_entries, v.show_hidden, search_query(v));
    BrowseView { entries: es, selected: if es.len() == 0 { None } else { Some(0) }, ..v }
}

/// Whether a name is listed (see `listed_by`), given it lower-cased and
/// the lower-cased query.
pub fn listed(name: &str, name_lowered: &str, show_hidden: bool, query_lowered: &Vec<char>) -> (r: bool)
    ensures
        r == listed_by(name@, name_lowered@, show_hidden, query_lowered@),
{
    if !show_hidden && starts_with_char(name, '.') {
        return false;
    }
    if query_lowered.len() == 0 {
        return true;
    }
    let name_chars = chars_of(name_lowered);
    contains_chars(&name_chars, query_lowered)
}

fn shown_now(e: &DirEntry, show_hidden: bool, query: &Vec<char>) -> (r: bool)
    ensures
        r == is_shown(*e, show_hidden, query@),
{
    let lowered = to_lowercase(e.name.as_str());
    listed(e.name.as_str(), lowered.as_str(), show_hidden, query)
}

/// Recompute the listed entries from the full listing and reset the
/// selection to the first of them.
pub fn apply_filters(state: &mut BrowseState)
    ensures
        final(state)@ == refiltered(old(state)@),
{
    let lowered = if state.search_editing {
        to_lowercase(state.search_edit_buffer.as_str())
    } else {
        to_lowercase(state.search_text.as_str())
    };
    let query = chars_of(lowered.as_str());
    let ghost pred = |e: DirEntry| is_shown(e, state.show_hidden, query@);
    let mut out: Vec<DirEntry> = Vec::new();
    let mut i: usize = 0;
    proof {
        reveal(Seq::filter);
        assert(state.all_entries@.subrange(0, 0) =~= Seq::<DirEntry>::empty());
    }
    while i < state.all_entries.len()
        invariant
            i <= state.all_entries@.len(),
            out@ == state.all_entries@.subrange(0, i as int).filter(pred),
            pred == (|e: DirEntry| is_shown(e, state.show_hidden, query@)),
        decreases state.all_entries@.len() - i,
    {
        proof {
            reveal(Seq::filter);
            let t = state.all_entries@.subrange(0, i + 1);
            assert(t.drop_last() =~= state.all_entries@.subrange(0, i as int));
            assert(t.last() == state.all_entries@[i as int]);
        }
        if shown_now(&state.all_entries[i], state.show_hidden, &query) {
            let e = state.all_entries[i].duplicate();
            out.push(e);
        }
        i = i + 1;
    }
    proof {
        assert(state.all_entries@.subrange(0, state.all_entries@.len() as int) =~= state.all_entries@);
    }
    let empty = out.len() == 0;
    state.entries = out;
    state.selected = if empty { None } else { Some(0) };
}

// ── Update ──────────────────────────────────────────────────────────

/// Index of the first entry whose path is `p` (as paths, not as text).
pub open spec fn position_of_path(es: Seq<DirEntry>, p: Seq<char>) -> Option<int>
    decreases es.len(),
{
    if es.len() == 0 {
        None
    } else if same_path(es[0].path@, p) {
        Some(0)
    } else {
        match position_of_path(es.drop_first(), p) {
            Some(k) => Some(k + 1),
            None => None,
        }
    }
}

/// The entries whose path is not `p`, in order.
pub open spec fn without_path(es: Seq<DirEntry>, p: Seq<char>) -> Seq<DirEntry> {
    es.filter(|e: DirEntry| !same_path(e.path@, p))
}

proof fn lemma_position_found(es: Seq<DirEntry>, p: Seq<char>, i: int)
    requires
        0 <= i < es.len(),
        same_path(es[i].path@, p),
        forall|k: int| 0 <= k < i ==> !same_path(#[trigger] es[k].path@, p),
    ensures
        position_of_path(es, p) == Some(i),
    decreases i,
{
    if i > 0 {
        let t = es.drop_first();
        assert(!same_path(es[0].path@, p));
        assert forall|k: int| 0 <= k < i - 1 implies !same_path(#[trigger] t[k].path@, p) by {
            assert(t[k] == es[k + 1]);
        }
        lemma_position_found(t, p, i - 1);
    }
}

proof fn lemma_position_absent(es: Seq<DirEntry>, p: Seq<char>)
    requires
        forall|k: int| 0 <= k < es.len() ==> !same_path(#[trigger] es[k].path@, p),
    ensures
        position_of_path(es, p) is None,
    decreases es.len(),
{
    if es.len() > 0 {
        let t = es.drop_first();
        assert(!same_path(es[0].path@, p));
        assert forall|k: int| 0 <= k < t.len() implies !same_path(#[trigger] t[k].path@, p) by {
            assert(t[k] == es[k + 1]);
        }
        lemma_position_absent(t, p);
    }
}

fn find_path(es: &Vec<DirEntry>, p: &str) -> (r: Option<usize>)
    ensures
        opt_int(r) == position_of_path(es@, p@),
{
    let mut i: usize = 0;
    while i < es.len()
        invariant
            i <= es@.len(),
            forall|k: int| 0 <= k < i ==> !same_path(#[trigger] es@[k].path@, p@),
        decreases es@.len() - i,
    {
        if paths_equal(es[i].path.as_str(), p) {
            proof {
                lemma_position_found(es@, p@, i as int);
            }
            return Some(i);
        }
        i = i + 1;
    }
    proof {
        lemma_position_absent(es@, p@);
    }
    None
}

fn retain_other_paths(es: &Vec<DirEntry>, p: &str) -> (r: Vec<DirEntry>)
    ensures
        r@ == without_path(es@, p@),
{
    let ghost pred = |e: DirEntry| !same_path(e.path@, p@);
    let mut out: Vec<DirEntry> = Vec::new();
    let mut i: usize = 0;
    proof {
        reveal(Seq::filter);
        assert(es@.subrange(0, 0) =~= Seq::<DirEntry>::empty());
    }
    while i < es.len()
        invariant
            i <= es@.len(),
            out@ == es@.subrange(0, i as int).filter(pred),
            pred == (|e: DirEntry| !same_path(e.path@, p@)),
        decreases es@.len() - i,
    {
        proof {
            reveal(Seq::filter);
            let t = es@.subrange(0, i + 1);
            assert(t.drop_last() =~= es@.subrange(0, i as int));
            assert(t.last() == es@[i as int]);
        }
        if !paths_equal(es[i].path.as_str(), p) {
            let e = es[i].duplicate();
            out.push(e);
        }
        i = i + 1;
    }
    proof {
        assert(es@.subrange(0, es@.len() as int) =~= es@);
    }
    out
}

/// The selection after the entry at `p` was deleted: none when nothing is
/// left, else the old index clamped to the new list.
pub open spec fn clamped_selection(selected: Option<int>, len: int) -> Option<int> {
    if len == 0 {
        None
    } else {
        match selected {
            Some(i) => Some(if i < len - 1 { i } else { len - 1 }),
            None => None,
        }
    }
}

/// What one message does to the Browse state, and the request it sends.
pub open spec fn browse_step(v: BrowseView, msg: BrowseMessage, home: Seq<char>, target_is_project: bool)
    -> (BrowseView, Option<RequestView>)
{
    match msg {
        BrowseMessage::SearchChanged(q) => (refiltered(BrowseView { search_text: q@, ..v }), None),
        BrowseMessage::SelectEntry(i) => (BrowseView { selected: Some(i as int), ..v }, None),
        BrowseMessage::NavigateTo(idx) => (
            v,
            if idx < v.entries.len() && v.entries[idx as int].is_dir && !target_is_project {
                Some(RequestView::ReadDirectory(v.entries[idx as int].path@))
            } else {
                None
            },
        ),
        BrowseMessage::NavigateToPath(p) => (v, Some(RequestView::ReadDirectory(p@))),
        BrowseMessage::DirectoryLoaded(p, es) => (
            refiltered(BrowseView {
                current_dir: p@,
                all_entries: es@,
                search_text: Seq::<char>::empty(),
                search_edit_buffer: Seq::<char>::empty(),
                search_visible: false,
                ..v
            }),
            Some(RequestView::SaveLastDir(p@)),
        ),
        BrowseMessage::DirectoryRefreshed(p, es) => (
            if same_path(v.current_dir, p@) {
                let w = refiltered(BrowseView { all_entries: es@, ..v });
                match v.selected {
                    Some(i) => if 0 <= i < v.entries.len() {
                        BrowseView { selected: position_of_path(w.entries, v.entries[i].path@), ..w }
                    } else {
                        w
                    },
                    None => w,
                }
            } else {
                v
            },
            None,
        ),
        BrowseMessage::ToggleHidden => (refiltered(BrowseView { show_hidden: !v.show_hidden, ..v }), None),
        BrowseMessage::DeleteEntry(idx) => (
            v,
            if idx < v.entries.len() {
                Some(RequestView::DeletePath(v.entries[idx as int].path@, v.entries[idx as int].is_dir))
            } else {
                None
            },
        ),
        BrowseMessage::Deleted(p, res) => (
            match res {
                Ok(_) => {
                    let es = without_path(v.entries, p@);
                    BrowseView {
                        all_entries: without_path(v.all_entries, p@),
                        entries: es,
                        selected: clamped_selection(v.selected, es.len() as int),
                        ..v
                    }
                },
                Err(_) => v,
            },
            Some(RequestView::ReadDirectory(v.current_dir)),
        ),
        BrowseMessage::LastDirLoaded(last) => (
            v,
            Some(RequestView::ReadDirectory(match last { Some(p) => p@, None => home })),
        ),
    }
}

/// Apply one message to the Browse state; the request it returns is the
/// filesystem work the message calls for.
pub fn update(state: &mut BrowseState, msg: BrowseMessage, ctx: &UpdateContext) -> (r: Option<FsRequest>)
    ensures
        (final(state)@, request_view(r)) == browse_step(old(state)@, msg, ctx.home@, ctx.target_is_project),
{
    match msg {
        BrowseMessage::SearchChanged(q) => {
            state.search_text = q;
            apply_filters(state);
            None
        },
        BrowseMessage::SelectEntry(i) => {
            state.selected = Some(i);
            None
        },
        BrowseMessage::NavigateTo(idx) => {
            if idx < state.entries.len() {
                if state.entries[idx].is_dir && !ctx.target_is_project {
                    return Some(FsRequest::ReadDirectory(copy_string(&state.entries[idx].path)));
                }
            }
            None
        },
        BrowseMessage::NavigateToPath(path) => Some(FsRequest::ReadDirectory(path)),
        BrowseMessage::DirectoryLoaded(path, entries) => {
            state.current_dir = copy_string(&path);
            state.all_entries = entries;
            state.search_text = String::new();
            state.search_edit_buffer = String::new();
            state.search_visible = false;
            apply_filters(state);
            Some(FsRequest::SaveLastDir(path))
        },
        BrowseMessage::DirectoryRefreshed(path, entries) => {
            if paths_equal(state.current_dir.as_str(), path.as_str()) {
                let selected_path = state.selected_path();
                state.all_entries = entries;
                apply_filters(state);
                if let Some(p) = selected_path {
                    state.selected = find_path(&state.entries, p.as_str());
                }
            }
            None
        },
        BrowseMessage::ToggleHidden => {
            state.show_hidden = !state.show_hidden;
            apply_filters(state);
            None
        },
        BrowseMessage::DeleteEntry(idx) => {
            if idx < state.entries.len() {
                Some(FsRequest::DeletePath(copy_string(&state.entries[idx].path), state.entries[idx].is_dir))
            } else {
                None
            }
        },
        BrowseMessage::Deleted(path, result) => {
            match result {
                Ok(_) => {
                    state.all_entries = retain_other_paths(&state.all_entries, path.as_str());
                    state.entries = retain_other_paths(&state.entries, path.as_str());
                    let len = state.entries.len();
                    if len == 0 {
                        state.selected = None;
                    } else if let Some(idx) = state.selected {
                        state.selected = Some(if idx < len - 1 { idx } else { len - 1 });
                    }
                },
                Err(_) => {},
            }
            Some(FsRequest::ReadDirectory(copy_string(&state.current_dir)))
        },
        BrowseMessage::LastDirLoaded(last_dir) => {
            let path = match last_dir {
                Some(p) => p,
                None => copy_string(&ctx.home),
            };
            Some(FsRequest::ReadDirectory(path))
        },
    }
}

// ── Keys on the Browse page ─────────────────────────────────────────

/// The fixed keys of the Browse page.
#[derive(Debug, Clone, Copy, PartialEq, Eq)]
pub enum FixedKey {
    ArrowUp,
    ArrowDown,
    Escape,
    Backspace,
    Other,
}

/// Which of the configurable chords (from `input.kdl`) a key press
/// matches.
#[derive(Debug, Clone, Copy, PartialEq, Eq)]
pub struct ChordHits {
    pub open_file: bool,
    pub select_next: bool,
    pub select_prev: bool,
    pub enter_dir: bool,
    pub parent_dir: bool,
    pub delete_entry: bool,
    pub toggle_hidden: bool,
}

/// What a key press on the Browse page asks for.
#[derive(Debug, Clone, PartialEq, Eq)]
pub enum KeyAction {
    SelectEntry(usize),
    NavigateTo(usize),
    NavigateToPath(String),
    DeleteEntry(usize),
    ToggleHidden,
    /// Open the selection (or choose it, in a chooser).
    SelectOpen,
    /// Leave a chooser without choosing.
    Cancel,
}

/// A key action as mathematical values.
pub enum KeyActionView {
    SelectEntry(int),
    NavigateTo(int),
    NavigateToPath(Seq<char>),
    DeleteEntry(int),
    ToggleHidden,
    SelectOpen,
    Cancel,
}

impl View for KeyAction {
    type V = KeyActionView;

    open spec fn view(&self) -> KeyActionView {
        match self {
            KeyAction::SelectEntry(i) => KeyActionView::SelectEntry(*i as int),
            KeyAction::NavigateTo(i) => KeyActionView::NavigateTo(*i as int),
            KeyAction::NavigateToPath(p) => KeyActionView::NavigateToPath(p@),
            KeyAction::DeleteEntry(i) => KeyActionView::DeleteEntry(*i as int),
            KeyAction::ToggleHidden => KeyActionView::ToggleHidden,
            KeyAction::SelectOpen => KeyActionView::SelectOpen,
            KeyAction::Cancel => KeyActionView::Cancel,
        }
    }
}

/// The view of an optional key action.
pub open spec fn key_action_view(a: Option<KeyAction>) -> Option<KeyActionView> {
    match a {
        Some(x) => Some(x@),
        None => None,
    }
}

/// An arrow key's selection move, when there is one.
pub open spec fn select_step(v: BrowseView, direction: BrowseNavigation) -> Option<KeyActionView> {
    match next_selection(v.entries.len() as int, v.selected, direction) {
        Some(i) => Some(KeyActionView::SelectEntry(i)),
        None => None,
    }
}

/// Going up to the parent directory, when there is one.
pub open spec fn parent_step(v: BrowseView) -> Option<KeyActionView> {
    match parent(v.current_dir) {
        Some(p) => Some(KeyActionView::NavigateToPath(p)),
        None => None,
    }
}

/// The selected entry, when the selection points into the list.
pub open spec fn selected_entry(v: BrowseView) -> Option<(int, DirEntry)> {
    match v.selected {
        Some(i) => if 0 <= i < v.entries.len() { Some((i, v.entries[i])) } else { None },
        None => None,
    }
}

/// What a key press does on the Browse page: the fixed keys first (arrows
/// move the selection, Escape cancels a chooser, Backspace goes up), then
/// the first configured chord it matches. `selected_is_project` says
/// whether the selected entry is a project directory.
pub open spec fn key_step(
    v: BrowseView,
    fixed: FixedKey,
    hits: ChordHits,
    select_mode: bool,
    save_mode: bool,
    selected_is_project: bool,
) -> Option<KeyActionView> {
    let by_fixed = match fixed {
        FixedKey::ArrowUp => select_step(v, BrowseNavigation::Up),
        FixedKey::ArrowDown => select_step(v, BrowseNavigation::Down),
        FixedKey::Escape => if select_mode { Some(KeyActionView::Cancel) } else { None },
        FixedKey::Backspace => parent_step(v),
        FixedKey::Other => None,
    };
    if by_fixed is Some {
        by_fixed
    } else if hits.open_file {
        match selected_entry(v) {
            Some((i, e)) => if e.is_dir && !selected_is_project {
                Some(KeyActionView::NavigateTo(i))
            } else {
                Some(KeyActionView::SelectOpen)
            },
            None => if v.selected is None && save_mode { Some(KeyActionView::SelectOpen) } else { None },
        }
    } else if hits.select_next {
        select_step(v, BrowseNavigation::Down)
    } else if hits.select_prev {
        select_step(v, BrowseNavigation::Up)
    } else if hits.enter_dir {
        match selected_entry(v) {
            Some((i, e)) => if e.is_dir && !selected_is_project { Some(KeyActionView::NavigateTo(i)) } else { None },
            None => None,
        }
    } else if hits.parent_dir {
        parent_step(v)
    } else if hits.delete_entry {
        match v.selected {
            Some(i) => Some(KeyActionView::DeleteEntry(i)),
            None => None,
        }
    } else if hits.toggle_hidden {
        Some(KeyActionView::ToggleHidden)
    } else {
        None
    }
}

fn select_action(state: &BrowseState, direction: BrowseNavigation) -> (r: Option<KeyAction>)
    ensures
        key_action_view(r) == select_step(state@, direction),
{
    match next_selection_index(state, direction) {
        Some(i) => Some(KeyAction::SelectEntry(i)),
        None => None,
    }
}

fn parent_action(state: &BrowseState) -> (r: Option<KeyAction>)
    ensures
        key_action_view(r) == parent_step(state@),
{
    match path_parent(state.current_dir.as_str()) {
        Some(p) => Some(KeyAction::NavigateToPath(p)),
        None => None,
    }
}

/// The action of a key press on the Browse page (see `key_step`).
pub fn key_action(
    state: &BrowseState,
    fixed: FixedKey,
    hits: ChordHits,
    select_mode: bool,
    save_mode: bool,
    selected_is_project: bool,
) -> (r: Option<KeyAction>)
    ensures
        key_action_view(r) == key_step(state@, fixed, hits, select_mode, save_mode, selected_is_project),
{
    let by_fixed = match fixed {
        FixedKey::ArrowUp => select_action(state, BrowseNavigation::Up),
        FixedKey::ArrowDown => select_action(state, BrowseNavigation::Down),
        FixedKey::Escape => if select_mode { Some(KeyAction::Cancel) } else { None },
        FixedKey::Backspace => parent_action(state),
        FixedKey::Other => None,
    };
    if by_fixed.is_some() {
        return by_fixed;
    }
    if hits.open_file {
        match state.selected {
            Some(i) => {
                if i < state.entries.len() {
                    if state.entries[i].is_dir && !selected_is_project {
                        Some(KeyAction::NavigateTo(i))
                    } else {
                        Some(KeyAction::SelectOpen)
                    }
                } else {
                    None
                }
            },
            None => if save_mode { Some(KeyAction::SelectOpen) } else { None },
        }
    } else if hits.select_next {
        select_action(state, BrowseNavigation::Down)
    } else if hits.select_prev {
        select_action(state, BrowseNavigation::Up)
    } else if hits.enter_dir {
        match state.selected {
            Some(i) => {
                if i < state.entries.len() && state.entries[i].is_dir && !selected_is_project {
                    Some(KeyAction::NavigateTo(i))
                } else {
                    None
                }
            },
            None => None,
        }
    } else if hits.parent_dir {
        parent_action(state)
    } else if hits.delete_entry {
        match state.selected {
            Some(i) => Some(KeyAction::DeleteEntry(i)),
            None => None,
        }
    } else if hits.toggle_hidden {
        Some(KeyAction::ToggleHidden)
    } else {
        None
    }
}

// ── Laws ────────────────────────────────────────────────────────────

/// An arrow key on a non-empty listing, from no selection or from a
/// selection inside the listing, always selects an entry of the listing.
pub proof fn lemma_navigation_stays_in_bounds(len: int, selected: Option<int>, direction: BrowseNavigation)
    requires
        len > 0,
        selected matches Some(i) ==> 0 <= i < len,
    ensures
        next_selection(len, selected, direction) matches Some(j) && 0 <= j < len,
{
}

/// With hidden files off no dotfile is listed, and every listed entry is
/// an entry of the full listing.
pub proof fn lemma_hidden_dotfiles_not_listed(all: Seq<DirEntry>, query: Seq<char>)
    ensures
        forall|k: int| 0 <= k < shown_entries(all, false, query).len()
            ==> !is_dotfile(#[trigger] shown_entries(all, false, query)[k]),
        forall|k: int| 0 <= k < shown_entries(all, false, query).len()
            ==> all.contains(#[trigger] shown_entries(all, false, query)[k]),
{
    let pred = |e: DirEntry| is_shown(e, false, query);
    assert forall|k: int| 0 <= k < shown_entries(all, false, query).len()
        implies !is_dotfile(#[trigger] shown_entries(all, false, query)[k]) && all.contains(shown_entries(all, false, query)[k]) by {
        all.lemma_filter_pred(pred, k);
        let e = all.filter(pred)[k];
        assert(all.filter(pred).contains(e));
        all.lemma_filter_contains_rev(pred, e);
    }
}

/// The filter lists exactly the entries it shows: every listed entry passes
/// it (hidden-file setting and query), and every entry that passes it is
/// listed.
pub proof fn lemma_listing_is_exactly_the_shown(all: Seq<DirEntry>, show_hidden: bool, query: Seq<char>)
    ensures
        forall|k: int| 0 <= k < shown_entries(all, show_hidden, query).len()
            ==> is_shown(#[trigger] shown_entries(all, show_hidden, query)[k], show_hidden, query),
        forall|k: int| 0 <= k < all.len() && is_shown(all[k], show_hidden, query)
            ==> shown_entries(all, show_hidden, query).contains(#[trigger] all[k]),
{
    let pred = |e: DirEntry| is_shown(e, show_hidden, query);
    assert forall|k: int| 0 <= k < shown_entries(all, show_hidden, query).len()
        implies is_shown(#[trigger] shown_entries(all, show_hidden, query)[k], show_hidden, query) by {
        all.lemma_filter_pred(pred, k);
    }
    assert forall|k: int| 0 <= k < all.len() && is_shown(all[k], show_hidden, query)
        implies shown_entries(all, show_hidden, query).contains(#[trigger] all[k]) by {
        all.lemma_filter_contains(pred, k);
    }
}

proof fn lemma_position_of_path(es: Seq<DirEntry>, p: Seq<char>)
    ensures
        position_of_path(es, p) matches Some(k) ==> 0 <= k < es.len() && same_path(es[k].path@, p),
        (exists|j: int| 0 <= j < es.len() && same_path((#[trigger] es[j]).path@, p)) ==> position_of_path(es, p) is Some,
    decreases es.len(),
{
    if es.len() > 0 {
        let t = es.drop_first();
        lemma_position_of_path(t, p);
        if exists|j: int| 0 <= j < es.len() && same_path((#[trigger] es[j]).path@, p) {
            let j = choose|j: int| 0 <= j < es.len() && same_path((#[trigger] es[j]).path@, p);
            if j > 0 && !same_path(es[0].path@, p) {
                assert(t[j - 1] == es[j]);
            }
        }
    }
}

/// A refresh of the directory being shown keeps the selection on the same
/// path when that path is still listed, and asks for nothing.
pub proof fn lemma_refresh_keeps_selected_path(
    v: BrowseView,
    dir: String,
    es: Vec<DirEntry>,
    home: Seq<char>,
    target_is_project: bool,
)
    requires
        same_path(v.current_dir, dir@),
        v.selected matches Some(i) && 0 <= i < v.entries.len(),
        exists|j: int| 0 <= j < shown_entries(es@, v.show_hidden, search_query(v)).len()
            && same_path((#[trigger] shown_entries(es@, v.show_hidden, search_query(v))[j]).path@,
                v.entries[v.selected->0].path@),
    ensures
        ({
            let (w, r) = browse_step(v, BrowseMessage::DirectoryRefreshed(dir, es), home, target_is_project);
            &&& r is None
            &&& w.selected matches Some(j) && 0 <= j < w.entries.len()
                && same_path(w.entries[j].path@, v.entries[v.selected->0].path@)
        }),
{
    let w = refiltered(BrowseView { all_entries: es@, ..v });
    assert(search_query(BrowseView { all_entries: es@, ..v }) == search_query(v));
    assert(w.entries == shown_entries(es@, v.show_hidden, search_query(v)));
    lemma_position_of_path(w.entries, v.entries[v.selected->0].path@);
}

/// A refresh of any other directory changes nothing and asks for nothing.
pub proof fn lemma_refresh_of_other_dir_ignored(
    v: BrowseView,
    dir: String,
    es: Vec<DirEntry>,
    home: Seq<char>,
    target_is_project: bool,
)
    requires
        !same_path(v.current_dir, dir@),
    ensures
        browse_step(v, BrowseMessage::DirectoryRefreshed(dir, es), home, target_is_project) == (v, None::<RequestView>),
{
}

/// After a successful delete the path is in neither listing, the selection
/// (if any) lies inside the listing, and the directory is read again.
pub proof fn lemma_delete_removes_path(v: BrowseView, path: String, home: Seq<char>, target_is_project: bool)
    requires
        v.selected matches Some(i) ==> i >= 0,
    ensures
        ({
            let (w, r) = browse_step(v, BrowseMessage::Deleted(path, Ok(())), home, target_is_project);
            &&& forall|k: int| 0 <= k < w.entries.len() ==> !same_path((#[trigger] w.entries[k]).path@, path@)
            &&& forall|k: int| 0 <= k < w.all_entries.len() ==> !same_path((#[trigger] w.all_entries[k]).path@, path@)
            &&& w.selected matches Some(j) ==> 0 <= j < w.entries.len()
            &&& r == Some(RequestView::ReadDirectory(v.current_dir))
        }),
{
    let pred = |e: DirEntry| !same_path(e.path@, path@);
    let (w, r) = browse_step(v, BrowseMessage::Deleted(path, Ok(())), home, target_is_project);
    assert forall|k: int| 0 <= k < w.entries.len() implies !same_path((#[trigger] w.entries[k]).path@, path@) by {
        v.entries.lemma_filter_pred(pred, k);
    }
    assert forall|k: int| 0 <= k < w.all_entries.len() implies !same_path((#[trigger] w.all_entries[k]).path@, path@) by {
        v.all_entries.lemma_filter_pred(pred, k);
    }
}

/// The arrow keys move one step and stop at the ends: from entry `i` of a
/// non-empty listing, Up selects `i - 1` (the first entry stays), Down
/// selects `i + 1` (the last entry stays); from no selection Down selects
/// the first entry and Up the last; an empty listing selects nothing.
pub proof fn lemma_arrow_steps(len: int)
    requires
        len >= 0,
    ensures
        len == 0 ==> forall|sel: Option<int>, d: BrowseNavigation| #[trigger] next_selection(len, sel, d) is None,
        forall|i: int| 0 < i < len ==> #[trigger] next_selection(len, Some(i), BrowseNavigation::Up) == Some(i - 1),
        len > 0 ==> next_selection(len, Some(0int), BrowseNavigation::Up) == Some(0int),
        forall|i: int| 0 <= i < len - 1 ==> #[trigger] next_selection(len, Some(i), BrowseNavigation::Down) == Some(i + 1),
        len > 0 ==> next_selection(len, Some(len - 1), BrowseNavigation::Down) == Some(len - 1),
        len > 0 ==> next_selection(len, None, BrowseNavigation::Down) == Some(0int),
        len > 0 ==> next_selection(len, None, BrowseNavigation::Up) == Some(len - 1),
{
}

/// Toggling hidden files flips the setting and lists exactly what the new
/// setting shows: turning it off hides every dotfile again, and toggling
/// twice gives back the setting and the listing there were (under the
/// same query). The request is none.
pub proof fn lemma_toggle_hidden(v: BrowseView, home: Seq<char>, target_is_project: bool)
    ensures
        ({
            let (w, r) = browse_step(v, BrowseMessage::ToggleHidden, home, target_is_project);
            let (x, _) = browse_step(w, BrowseMessage::ToggleHidden, home, target_is_project);
            &&& r is None
            &&& w.show_hidden == !v.show_hidden
            &&& w.all_entries == v.all_entries
            &&& !w.show_hidden ==> forall|k: int| 0 <= k < w.entries.len() ==> !is_dotfile(#[trigger] w.entries[k])
            &&& w.show_hidden && search_query(v).len() == 0 ==> w.entries == v.all_entries
            &&& x.show_hidden == v.show_hidden
            &&& x.entries == shown_entries(v.all_entries, v.show_hidden, search_query(v))
        }),
{
    let (w, r) = browse_step(v, BrowseMessage::ToggleHidden, home, target_is_project);
    let (x, _) = browse_step(w, BrowseMessage::ToggleHidden, home, target_is_project);
    assert(search_query(w) == search_query(v));
    assert(w.entries == shown_entries(v.all_entries, !v.show_hidden, search_query(v)));
    assert(search_query(x) == search_query(v));
    assert(x.show_hidden == v.show_hidden);
    assert(x.entries == shown_entries(v.all_entries, v.show_hidden, search_query(v)));
    lemma_hidden_dotfiles_not_listed(v.all_entries, search_query(v));
    if w.show_hidden && search_query(v).len() == 0 {
        lemma_all_listed(v.all_entries);
        assert(search_query(v) =~= Seq::<char>::empty());
        assert(w.entries == shown_entries(v.all_entries, true, Seq::empty()));
    }
}

proof fn lemma_all_listed(all: Seq<DirEntry>)
    ensures
        shown_entries(all, true, Seq::empty()) == all,
    decreases all.len(),
{
    reveal(Seq::filter);
    if all.len() > 0 {
        lemma_all_listed(all.drop_last());
        assert(all.drop_last().push(all.last()) =~= all);
    } else {
        assert(shown_entries(all, true, Seq::empty()) =~= all);
    }
}

/// A search replaces the search text, keeps the listing's source and the
/// hidden-file setting, lists exactly the entries whose lower-cased name
/// contains the (lower-cased) query and that the hidden-file setting
/// shows, selects the first of them, and asks for nothing.
pub proof fn lemma_search_changed(v: BrowseView, q: String, home: Seq<char>, target_is_project: bool)
    ensures
        ({
            let (w, r) = browse_step(v, BrowseMessage::SearchChanged(q), home, target_is_project);
            &&& r is None
            &&& w.search_text == q@
            &&& w.all_entries == v.all_entries
            &&& w.show_hidden == v.show_hidden
            &&& w.current_dir == v.current_dir
            &&& forall|k: int| 0 <= k < w.entries.len() ==> v.all_entries.contains(#[trigger] w.entries[k])
                && (v.show_hidden || !is_dotfile(w.entries[k]))
                && (search_query(w).len() == 0 || contains_seq(lowercase(w.entries[k].name@), search_query(w)))
            &&& forall|k: int| 0 <= k < v.all_entries.len() && (v.show_hidden || !is_dotfile(v.all_entries[k]))
                && (search_query(w).len() == 0 || contains_seq(lowercase(v.all_entries[k].name@), search_query(w)))
                ==> w.entries.contains(#[trigger] v.all_entries[k])
            &&& w.selected == (if w.entries.len() == 0 { None } else { Some(0int) })
        }),
{
    let (w, r) = browse_step(v, BrowseMessage::SearchChanged(q), home, target_is_project);
    lemma_listing_is_exactly_the_shown(v.all_entries, v.show_hidden, search_query(w));
    let pred = |e: DirEntry| is_shown(e, v.show_hidden, search_query(w));
    assert forall|k: int| 0 <= k < w.entries.len() implies v.all_entries.contains(#[trigger] w.entries[k]) by {
        assert(v.all_entries.filter(pred).contains(w.entries[k]));
        v.all_entries.lemma_filter_contains_rev(pred, w.entries[k]);
    }
}

/// Selecting entry `i` selects it and changes nothing else.
pub proof fn lemma_select_entry(v: BrowseView, i: usize, home: Seq<char>, target_is_project: bool)
    ensures
        browse_step(v, BrowseMessage::SelectEntry(i), home, target_is_project)
            == (BrowseView { selected: Some(i as int), ..v }, None::<RequestView>),
{
}

/// Opening entry `idx` reads that entry's directory when it is a directory
/// of the listing and not a project; otherwise it asks for nothing. The
/// state does not change.
pub proof fn lemma_navigate_to(v: BrowseView, idx: usize, home: Seq<char>, target_is_project: bool)
    ensures
        ({
            let (w, r) = browse_step(v, BrowseMessage::NavigateTo(idx), home, target_is_project);
            &&& w == v
            &&& (idx < v.entries.len() && v.entries[idx as int].is_dir && !target_is_project)
                ==> r == Some(RequestView::ReadDirectory(v.entries[idx as int].path@))
            &&& !(idx < v.entries.len() && v.entries[idx as int].is_dir && !target_is_project) ==> r is None
        }),
{
}

/// Going to a path reads that path; going back to the remembered directory
/// reads it, or the home directory when none is remembered. Neither
/// changes the state.
pub proof fn lemma_navigation_requests(v: BrowseView, p: String, last: Option<String>, home: Seq<char>, target_is_project: bool)
    ensures
        browse_step(v, BrowseMessage::NavigateToPath(p), home, target_is_project)
            == (v, Some(RequestView::ReadDirectory(p@))),
        browse_step(v, BrowseMessage::LastDirLoaded(last), home, target_is_project).0 == v,
        browse_step(v, BrowseMessage::LastDirLoaded(last), home, target_is_project).1
            == Some(RequestView::ReadDirectory(match last { Some(l) => l@, None => home })),
{
}

/// A loaded directory becomes the one shown: its entries are the listing's
/// source, the search is cleared and hidden, the first listed entry is
/// selected, and the directory is remembered.
pub proof fn lemma_directory_loaded(v: BrowseView, p: String, es: Vec<DirEntry>, home: Seq<char>, target_is_project: bool)
    ensures
        ({
            let (w, r) = browse_step(v, BrowseMessage::DirectoryLoaded(p, es), home, target_is_project);
            &&& r == Some(RequestView::SaveLastDir(p@))
            &&& w.current_dir == p@
            &&& w.all_entries == es@
            &&& w.search_text.len() == 0
            &&& w.search_edit_buffer.len() == 0
            &&& !w.search_visible
            &&& w.show_hidden == v.show_hidden
            &&& w.entries == shown_entries(es@, v.show_hidden, search_query(w))
            &&& w.selected == (if w.entries.len() == 0 { None } else { Some(0int) })
        }),
{
}

/// Deleting entry `idx` asks to delete that entry's path (saying whether
/// it is a directory) when it is in the listing, and nothing otherwise;
/// the state waits for the answer unchanged.
pub proof fn lemma_delete_entry_request(v: BrowseView, idx: usize, home: Seq<char>, target_is_project: bool)
    ensures
        ({
            let (w, r) = browse_step(v, BrowseMessage::DeleteEntry(idx), home, target_is_project);
            &&& w == v
            &&& idx < v.entries.len()
                ==> r == Some(RequestView::DeletePath(v.entries[idx as int].path@, v.entries[idx as int].is_dir))
            &&& idx >= v.entries.len() ==> r is None
        }),
{
}

/// A listing row's icon: a folder for every directory; for a file, by the
/// text after its name's last `.` (matched as written): an image, a note,
/// a clapper, a package or a scroll for the listed image, audio, video,
/// archive and script extensions, a page for everything else.
pub proof fn lemma_entry_icons(is_dir: bool, name: Seq<char>)
    ensures
        is_dir ==> spec_entry_icon(is_dir, name) == "📁",
        !is_dir && one_of(after_last(name, '.'), seq!["png", "jpg", "jpeg", "svg", "gif"]) && !one_of(after_last(name, '.'), seq!["rs", "toml", "json", "yaml", "yml"])
            ==> spec_entry_icon(is_dir, name) == "🖼",
        !is_dir && one_of(after_last(name, '.'), seq!["mp3", "wav", "flac", "ogg"]) && !one_of(after_last(name, '.'), seq!["rs", "toml", "json", "yaml", "yml"]) && !one_of(after_last(name, '.'), seq!["png", "jpg", "jpeg", "svg", "gif"])
            ==> spec_entry_icon(is_dir, name) == "🎵",
        !is_dir && one_of(after_last(name, '.'), seq!["mp4", "mkv", "avi", "webm"]) && !one_of(after_last(name, '.'), seq!["rs", "toml", "json", "yaml", "yml"]) && !one_of(after_last(name, '.'), seq!["png", "jpg", "jpeg", "svg", "gif"]) && !one_of(after_last(name, '.'), seq!["mp3", "wav", "flac", "ogg"])
            ==> spec_entry_icon(is_dir, name) == "🎬",
        !is_dir && one_of(after_last(name, '.'), seq!["zip", "tar", "gz", "bz2", "xz"]) && !one_of(after_last(name, '.'), seq!["rs", "toml", "json", "yaml", "yml"]) && !one_of(after_last(name, '.'), seq!["png", "jpg", "jpeg", "svg", "gif"]) && !one_of(after_last(name, '.'), seq!["mp3", "wav", "flac", "ogg"]) && !one_of(after_last(name, '.'), seq!["mp4", "mkv", "avi", "webm"])
            ==> spec_entry_icon(is_dir, name) == "📦",
        !is_dir && one_of(after_last(name, '.'), seq!["py", "sh", "bash"]) && !one_of(after_last(name, '.'), seq!["rs", "toml", "json", "yaml", "yml"]) && !one_of(after_last(name, '.'), seq!["png", "jpg", "jpeg", "svg", "gif"]) && !one_of(after_last(name, '.'), seq!["mp3", "wav", "flac", "ogg"]) && !one_of(after_last(name, '.'), seq!["mp4", "mkv", "avi", "webm"]) && !one_of(after_last(name, '.'), seq!["zip", "tar", "gz", "bz2", "xz"])
            ==> spec_entry_icon(is_dir, name) == "📜",
        !is_dir && !one_of(after_last(name, '.'), seq!["png", "jpg", "jpeg", "svg", "gif"]) && !one_of(after_last(name, '.'), seq!["mp3", "wav", "flac", "ogg"]) && !one_of(after_last(name, '.'), seq!["mp4", "mkv", "avi", "webm"]) && !one_of(after_last(name, '.'), seq!["zip", "tar", "gz", "bz2", "xz"]) && !one_of(after_last(name, '.'), seq!["py", "sh", "bash"])
            ==> spec_entry_icon(is_dir, name) == "📄",
{
}

/// No configured chord matched.
pub open spec fn no_chord() -> ChordHits {
    ChordHits {
        open_file: false,
        select_next: false,
        select_prev: false,
        enter_dir: false,
        parent_dir: false,
        delete_entry: false,
        toggle_hidden: false,
    }
}

/// Keys on the Browse page: the arrows move the selection as
/// `next_selection` does (on a non-empty listing); Escape cancels a chooser
/// and does nothing else on its own; Backspace and the parent chord go to
/// the parent directory; the open chord enters a selected ordinary
/// directory and opens anything else; the delete chord deletes the
/// selection; the hidden-files chord toggles them; no key and no chord
/// does nothing.
pub proof fn lemma_key_steps(v: BrowseView, select_mode: bool, save_mode: bool, proj: bool)
    requires
        v.selected matches Some(i) ==> i >= 0,
    ensures
        v.entries.len() > 0 ==> key_step(v, FixedKey::ArrowUp, no_chord(), select_mode, save_mode, proj)
            == Some(KeyActionView::SelectEntry(next_selection(v.entries.len() as int, v.selected, BrowseNavigation::Up)->0)),
        v.entries.len() > 0 ==> key_step(v, FixedKey::ArrowDown, no_chord(), select_mode, save_mode, proj)
            == Some(KeyActionView::SelectEntry(next_selection(v.entries.len() as int, v.selected, BrowseNavigation::Down)->0)),
        select_mode ==> key_step(v, FixedKey::Escape, no_chord(), select_mode, save_mode, proj) == Some(KeyActionView::Cancel),
        !select_mode ==> key_step(v, FixedKey::Escape, no_chord(), select_mode, save_mode, proj) is None,
        key_step(v, FixedKey::Other, no_chord(), select_mode, save_mode, proj) is None,
        parent(v.current_dir) matches Some(p) ==> key_step(v, FixedKey::Backspace, no_chord(), select_mode, save_mode, proj)
            == Some(KeyActionView::NavigateToPath(p)),
        parent(v.current_dir) matches Some(p) ==> key_step(v, FixedKey::Other, ChordHits { parent_dir: true, ..no_chord() }, select_mode, save_mode, proj)
            == Some(KeyActionView::NavigateToPath(p)),
        key_step(v, FixedKey::Other, ChordHits { toggle_hidden: true, ..no_chord() }, select_mode, save_mode, proj)
            == Some(KeyActionView::ToggleHidden),
        v.selected matches Some(i) ==> key_step(v, FixedKey::Other, ChordHits { delete_entry: true, ..no_chord() }, select_mode, save_mode, proj)
            == Some(KeyActionView::DeleteEntry(i)),
        v.selected is Some && v.selected->0 < v.entries.len() && v.entries[v.selected->0].is_dir && !proj
            ==> key_step(v, FixedKey::Other, ChordHits { open_file: true, ..no_chord() }, select_mode, save_mode, proj)
                == Some(KeyActionView::NavigateTo(v.selected->0)),
        v.selected is Some && v.selected->0 < v.entries.len() && !(v.entries[v.selected->0].is_dir && !proj)
            ==> key_step(v, FixedKey::Other, ChordHits { open_file: true, ..no_chord() }, select_mode, save_mode, proj)
                == Some(KeyActionView::SelectOpen),
{
}

} // verus!
