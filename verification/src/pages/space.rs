//! The Space page — a treemap of disk usage — as far as it is not drawing:
//! the file-type categories tiles are coloured by, the bookkeeping of the
//! scan that feeds the map, and the eliding of tile labels.

use vstd::prelude::*;
use crate::path::{paths_equal, same_path};
use crate::services::scan::TreeNode;
use crate::text::{extension, extension_of, is_one_of, one_of, chars_of, string_from_chars};

verus! {

// ── File-type categories ────────────────────────────────────────────

/// The category a file's extension puts it in. Area says how big a thing is;
/// hue says what kind of thing it is.
#[derive(Debug, Clone, Copy, PartialEq, Eq)]
pub enum Category {
    Image,
    Video,
    Audio,
    Code,
    Document,
    Archive,
    Binary,
    Other,
}

/// Every category, for the legend.
pub fn categories() -> (r: [Category; 8])
    ensures
        r@ == seq![
            Category::Image,
            Category::Video,
            Category::Audio,
            Category::Code,
            Category::Document,
            Category::Archive,
            Category::Binary,
            Category::Other,
        ],
{
    [
        Category::Image,
        Category::Video,
        Category::Audio,
        Category::Code,
        Category::Document,
        Category::Archive,
        Category::Binary,
        Category::Other,
    ]
}

pub open spec fn image_exts() -> Seq<&'static str> {
    seq!["png", "jpg", "jpeg", "gif", "webp", "bmp", "ico", "tiff", "tif", "svg", "svgz", "psd", "xcf",
        "raw", "cr2", "nef", "heic", "avif"]
}

pub open spec fn video_exts() -> Seq<&'static str> {
    seq!["mp4", "mkv", "mov", "avi", "webm", "m4v", "mpg", "mpeg", "wmv", "flv", "ogv"]
}

pub open spec fn audio_exts() -> Seq<&'static str> {
    seq!["mp3", "wav", "flac", "ogg", "opus", "m4a", "aac", "wma", "aiff", "mid", "midi"]
}

pub open spec fn code_exts() -> Seq<&'static str> {
    seq!["rs", "c", "h", "cpp", "hpp", "cc", "py", "js", "ts", "jsx", "tsx", "go", "java", "kt", "rb",
        "php", "swift", "hs", "ml", "lua", "sh", "bash", "zsh", "fish", "vim", "el", "scm", "clj", "ex",
        "erl", "sql", "html", "css", "scss", "glsl", "cl", "wgsl"]
}

pub open spec fn document_exts() -> Seq<&'static str> {
    seq!["txt", "md", "rst", "org", "pdf", "doc", "docx", "odt", "rtf", "xls", "xlsx", "ods", "csv",
        "tsv", "ppt", "pptx", "odp", "epub", "mobi", "tex", "json", "toml", "yaml", "yml", "xml", "kdl",
        "ini", "conf", "cfg", "log"]
}

pub open spec fn archive_exts() -> Seq<&'static str> {
    seq!["zip", "tar", "gz", "bz2", "xz", "zst", "7z", "rar", "tgz", "txz", "iso", "img", "dmg", "deb",
        "rpm", "pkg", "apk", "jar", "whl"]
}

pub open spec fn binary_exts() -> Seq<&'static str> {
    seq!["so", "a", "o", "dll", "dylib", "exe", "bin", "elf", "class", "pyc", "rlib", "wasm", "qcow2",
        "vdi", "vmdk"]
}

/// The category of a lower-cased extension.
pub open spec fn category_of_ext(ext: Seq<char>) -> Category {
    if one_of(ext, image_exts()) {
        Category::Image
    } else if one_of(ext, video_exts()) {
        Category::Video
    } else if one_of(ext, audio_exts()) {
        Category::Audio
    } else if one_of(ext, code_exts()) {
        Category::Code
    } else if one_of(ext, document_exts()) {
        Category::Document
    } else if one_of(ext, archive_exts()) {
        Category::Archive
    } else if one_of(ext, binary_exts()) {
        Category::Binary
    } else {
        Category::Other
    }
}

/// The category of a file name: by its (case-insensitive) extension; a name
/// without one — a dotfile like `.bashrc` included — is `Other`.
pub open spec fn category_of_name(name: Seq<char>) -> Category {
    match extension(name) {
        Some(ext) => category_of_ext(ext),
        None => Category::Other,
    }
}

impl Category {
    pub fn of(name: &str) -> (r: Category)
        ensures
            r == category_of_name(name@),
    {
        let ext = match extension_of(name) {
            Some(e) => e,
            None => return Category::Other,
        };
        if is_one_of(&ext, &["png", "jpg", "jpeg", "gif", "webp", "bmp", "ico", "tiff", "tif", "svg",
            "svgz", "psd", "xcf", "raw", "cr2", "nef", "heic", "avif"]) {
            Category::Image
        } else if is_one_of(&ext, &["mp4", "mkv", "mov", "avi", "webm", "m4v", "mpg", "mpeg", "wmv",
            "flv", "ogv"]) {
            Category::Video
        } else if is_one_of(&ext, &["mp3", "wav", "flac", "ogg", "opus", "m4a", "aac", "wma", "aiff",
            "mid", "midi"]) {
            Category::Audio
        } else if is_one_of(&ext, &["rs", "c", "h", "cpp", "hpp", "cc", "py", "js", "ts", "jsx", "tsx",
            "go", "java", "kt", "rb", "php", "swift", "hs", "ml", "lua", "sh", "bash", "zsh", "fish",
            "vim", "el", "scm", "clj", "ex", "erl", "sql", "html", "css", "scss", "glsl", "cl", "wgsl"]) {
            Category::Code
        } else if is_one_of(&ext, &["txt", "md", "rst", "org", "pdf", "doc", "docx", "odt", "rtf", "xls",
            "xlsx", "ods", "csv", "tsv", "ppt", "pptx", "odp", "epub", "mobi", "tex", "json", "toml",
            "yaml", "yml", "xml", "kdl", "ini", "conf", "cfg", "log"]) {
            Category::Document
        } else if is_one_of(&ext, &["zip", "tar", "gz", "bz2", "xz", "zst", "7z", "rar", "tgz", "txz",
            "iso", "img", "dmg", "deb", "rpm", "pkg", "apk", "jar", "whl"]) {
            Category::Archive
        } else if is_one_of(&ext, &["so", "a", "o", "dll", "dylib", "exe", "bin", "elf", "class", "pyc",
            "rlib", "wasm", "qcow2", "vdi", "vmdk"]) {
            Category::Binary
        } else {
            Category::Other
        }
    }

    pub open spec fn spec_label(self) -> &'static str {
        match self {
            Category::Image => "Images",
            Category::Video => "Video",
            Category::Audio => "Audio",
            Category::Code => "Code",
            Category::Document => "Documents",
            Category::Archive => "Archives",
            Category::Binary => "Binaries",
            Category::Other => "Other",
        }
    }

    pub fn label(self) -> (r: &'static str)
        ensures
            r == self.spec_label(),
    {
        match self {
            Category::Image => "Images",
            Category::Video => "Video",
            Category::Audio => "Audio",
            Category::Code => "Code",
            Category::Document => "Documents",
            Category::Archive => "Archives",
            Category::Binary => "Binaries",
            Category::Other => "Other",
        }
    }

    /// The category's colour, as the sRGB hex string the palette is written in.
    pub open spec fn spec_color_hex(self) -> &'static str {
        match self {
            Category::Image => "#4f9fd1",
            Category::Video => "#9b6bd6",
            Category::Audio => "#4fb98a",
            Category::Code => "#dfb341",
            Category::Document => "#d1685f",
            Category::Archive => "#c77e3e",
            Category::Binary => "#b85c9e",
            Category::Other => "#6b7280",
        }
    }

    pub fn color_hex(self) -> (r: &'static str)
        ensures
            r == self.spec_color_hex(),
    {
        match self {
            Category::Image => "#4f9fd1",
            Category::Video => "#9b6bd6",
            Category::Audio => "#4fb98a",
            Category::Code => "#dfb341",
            Category::Document => "#d1685f",
            Category::Archive => "#c77e3e",
            Category::Binary => "#b85c9e",
            Category::Other => "#6b7280",
        }
    }
}

// ── Scan bookkeeping ────────────────────────────────────────────────

/// Results coming back from a subtree scan. Each carries the directory it is
/// about, because a superseded scan can still deliver messages after the
/// page has moved on.
#[derive(Debug)]
pub enum SpaceMessage {
    Progress { dir: String, files: u64, bytes: u64 },
    Scanned { dir: String, tree: TreeNode },
    Failed(String),
}

/// The Space page's record of its scan: which directory the tree describes,
/// whether a scan is running and how far it has got, what it found or why it
/// failed, and the hovered tile and selected path. (The laid-out tiles and
/// the scan's cancel token belong to the drawing side.)
#[derive(Debug)]
pub struct SpaceState {
    /// The directory the current `tree` describes. Empty until a scan lands.
    pub scanned_dir: String,
    pub tree: Option<TreeNode>,
    pub hovered: Option<usize>,
    /// Selection is held by path, not index: a relayout renumbers every tile.
    pub selected_path: Option<String>,
    pub scanning: bool,
    pub scan_files: u64,
    pub scan_bytes: u64,
    pub error: Option<String>,
}

/// Whether `dir` is not what the current tree describes while no scan is
/// running.
pub open spec fn scan_needed(s: SpaceState, dir: Seq<char>) -> bool {
    !s.scanning && (s.tree is None || !same_path(s.scanned_dir@, dir))
}

impl SpaceState {
    pub fn new() -> (r: SpaceState)
        ensures
            r.scanned_dir@.len() == 0,
            r.tree is None,
            r.hovered is None,
            r.selected_path is None,
            !r.scanning,
            r.scan_files == 0,
            r.scan_bytes == 0,
            r.error is None,
    {
        SpaceState {
            scanned_dir: String::new(),
            tree: None,
            hovered: None,
            selected_path: None,
            scanning: false,
            scan_files: 0,
            scan_bytes: 0,
            error: None,
        }
    }

    /// True when `dir` is not what the current tree describes and no scan is
    /// running — the caller should kick off a scan.
    pub fn needs_scan(&self, dir: &str) -> (r: bool)
        ensures
            r == scan_needed(*self, dir@),
    {
        !self.scanning && (self.tree.is_none() || !paths_equal(self.scanned_dir.as_str(), dir))
    }

    /// Start a scan of `dir`: forget the old tree, its error and its hover,
    /// and zero the progress counters.
    pub fn begin_scan(&mut self, dir: &str)
        ensures
            final(self).scanning,
            final(self).scan_files == 0,
            final(self).scan_bytes == 0,
            final(self).error is None,
            final(self).tree is None,
            final(self).hovered is None,
            final(self).scanned_dir@ == dir@,
            final(self).selected_path == old(self).selected_path,
    {
        self.scanning = true;
        self.scan_files = 0;
        self.scan_bytes = 0;
        self.error = None;
        self.tree = None;
        self.hovered = None;
        self.scanned_dir = dir.to_owned();
    }

    /// A scan of `dir` has landed with `tree`.
    pub fn scan_finished(&mut self, dir: String, tree: TreeNode)
        ensures
            !final(self).scanning,
            final(self).scanned_dir == dir,
            final(self).tree == Some(tree),
            final(self).hovered is None,
            final(self).scan_files == old(self).scan_files,
            final(self).scan_bytes == old(self).scan_bytes,
            final(self).error == old(self).error,
            final(self).selected_path == old(self).selected_path,
    {
        self.scanning = false;
        self.scanned_dir = dir;
        self.tree = Some(tree);
        self.hovered = None;
    }

    /// The scan failed with `err`.
    pub fn scan_failed(&mut self, err: String)
        ensures
            !final(self).scanning,
            final(self).tree is None,
            final(self).error == Some(err),
            final(self).scanned_dir == old(self).scanned_dir,
            final(self).hovered == old(self).hovered,
            final(self).scan_files == old(self).scan_files,
            final(self).scan_bytes == old(self).scan_bytes,
            final(self).selected_path == old(self).selected_path,
    {
        self.scanning = false;
        self.tree = None;
        self.error = Some(err);
    }
}

/// Apply a scan message: progress and results about a directory other than
/// the one being scanned are dropped; a failure always lands.
/// What a scan message does to the Space state: progress and results
/// about a directory other than the one being scanned are dropped; a
/// failure always lands.
pub open spec fn space_step(s: SpaceState, msg: SpaceMessage) -> SpaceState {
    match msg {
        SpaceMessage::Progress { dir, files, bytes } =>
            if s.scanning && same_path(s.scanned_dir@, dir@) {
                SpaceState { scan_files: files, scan_bytes: bytes, ..s }
            } else {
                s
            },
        SpaceMessage::Scanned { dir, tree } =>
            if same_path(s.scanned_dir@, dir@) {
                SpaceState { scanning: false, scanned_dir: dir, tree: Some(tree), hovered: None, ..s }
            } else {
                s
            },
        SpaceMessage::Failed(err) => SpaceState { scanning: false, tree: None, error: Some(err), ..s },
    }
}

pub fn update(state: &mut SpaceState, msg: SpaceMessage)
    ensures
        *final(state) == space_step(*old(state), msg),
{
    match msg {
        SpaceMessage::Progress { dir, files, bytes } => {
            if !state.scanning || !paths_equal(state.scanned_dir.as_str(), dir.as_str()) {
                return;
            }
            state.scan_files = files;
            state.scan_bytes = bytes;
        },
        SpaceMessage::Scanned { dir, tree } => {
            if !paths_equal(state.scanned_dir.as_str(), dir.as_str()) {
                return;
            }
            state.scan_finished(dir, tree);
        },
        SpaceMessage::Failed(err) => state.scan_failed(err),
    }
}

// ── Labels ──────────────────────────────────────────────────────────

/// A label trimmed to at most `max` characters: kept whole when it fits,
/// else cut to `max - 1` characters and ended with `…` (just `…` when only
/// one character fits, nothing when none does).
pub open spec fn elided(s: Seq<char>, max: int) -> Seq<char> {
    if max == 0 {
        Seq::<char>::empty()
    } else if s.len() <= max {
        s
    } else if max <= 1 {
        seq!['…']
    } else {
        s.take(max - 1).push('…')
    }
}

/// Trim a label to `max` characters (the width the drawing side estimated
/// for the tile).
pub fn elide(s: &str, max: usize) -> (r: String)
    ensures
        r@ == elided(s@, max as int),
{
    if max == 0 {
        return String::new();
    }
    let cs = chars_of(s);
    if cs.len() <= max {
        return s.to_owned();
    }
    if max <= 1 {
        let mut r = String::new();
        crate::text::push_char(&mut r, '…');
        return r;
    }
    let mut kept: Vec<char> = Vec::new();
    let mut i: usize = 0;
    while i < max - 1
        invariant
            max - 1 < cs@.len(),
            i <= max - 1,
            kept@ == cs@.take(i as int),
        decreases max - 1 - i,
    {
        kept.push(cs[i]);
        i = i + 1;
    }
    kept.push('…');
    string_from_chars(kept.as_slice())
}

// ── Laws ────────────────────────────────────────────────────────────

/// Once the scan of the directory being scanned lands, that directory
/// needs no new scan.
pub proof fn lemma_landed_scan_needs_no_rescan(s: SpaceState, dir: String, tree: TreeNode)
    requires
        same_path(s.scanned_dir@, dir@),
    ensures
        !scan_needed(space_step(s, SpaceMessage::Scanned { dir, tree }), dir@),
{
}

/// A result about a directory other than the one being scanned leaves the
/// state as it was.
pub proof fn lemma_stale_scan_dropped(s: SpaceState, dir: String, tree: TreeNode)
    requires
        !same_path(s.scanned_dir@, dir@),
    ensures
        space_step(s, SpaceMessage::Scanned { dir, tree }) == s,
{
}

/// An elided label is at most `max` characters long, and a label that fits
/// is kept whole; a shortened one ends with `…`.
pub proof fn lemma_elided_fits(s: Seq<char>, max: int)
    requires
        max >= 0,
    ensures
        elided(s, max).len() <= max,
        s.len() <= max ==> elided(s, max) == s,
        s.len() > max && max > 0 ==> elided(s, max).last() == '…',
        s.len() > max && max > 0 ==> elided(s, max).len() == max
            && elided(s, max).take(max - 1) == s.take(max - 1),
        max == 0 ==> elided(s, max).len() == 0,
{
    if s.len() > max && max > 1 {
        assert(elided(s, max).take(max - 1) =~= s.take(max - 1));
    }
    if s.len() > max && max == 1 {
        assert(elided(s, max).take(0) =~= s.take(0));
    }
}


// ── Laws on categories ──────────────────────────────────────────────

/// How a file is classified, list by list: a name with a non-empty stem
/// whose lower-cased extension is a listed image extension is an Image;
/// one whose extension is a listed video extension (and no image one) is
/// Video; and so on down the lists (audio, code, document, archive,
/// binary), each list taking precedence over the later ones. An extension
/// in no list, or a name without an extension (a dotfile like `.bashrc`
/// included), is Other.
pub proof fn lemma_category_lists(name: Seq<char>)
    ensures
        extension(name) matches Some(e) && one_of(e, seq!["png", "jpg", "jpeg", "gif", "webp", "bmp", "ico", "tiff", "tif", "svg", "svgz", "psd", "xcf", "raw", "cr2", "nef", "heic", "avif"])
            ==> category_of_name(name) == Category::Image,
        extension(name) matches Some(e) && one_of(e, seq!["mp4", "mkv", "mov", "avi", "webm", "m4v", "mpg", "mpeg", "wmv", "flv", "ogv"]) && !one_of(e, seq!["png", "jpg", "jpeg", "gif", "webp", "bmp", "ico", "tiff", "tif", "svg", "svgz", "psd", "xcf", "raw", "cr2", "nef", "heic", "avif"])
            ==> category_of_name(name) == Category::Video,
        extension(name) matches Some(e) && one_of(e, seq!["mp3", "wav", "flac", "ogg", "opus", "m4a", "aac", "wma", "aiff", "mid", "midi"]) && !one_of(e, seq!["png", "jpg", "jpeg", "gif", "webp", "bmp", "ico", "tiff", "tif", "svg", "svgz", "psd", "xcf", "raw", "cr2", "nef", "heic", "avif"]) && !one_of(e, seq!["mp4", "mkv", "mov", "avi", "webm", "m4v", "mpg", "mpeg", "wmv", "flv", "ogv"])
            ==> category_of_name(name) == Category::Audio,
        extension(name) matches Some(e) && one_of(e, seq!["rs", "c", "h", "cpp", "hpp", "cc", "py", "js", "ts", "jsx", "tsx", "go", "java", "kt", "rb", "php", "swift", "hs", "ml", "lua", "sh", "bash", "zsh", "fish", "vim", "el", "scm", "clj", "ex", "erl", "sql", "html", "css", "scss", "glsl", "cl", "wgsl"]) && !one_of(e, seq!["png", "jpg", "jpeg", "gif", "webp", "bmp", "ico", "tiff", "tif", "svg", "svgz", "psd", "xcf", "raw", "cr2", "nef", "heic", "avif"]) && !one_of(e, seq!["mp4", "mkv", "mov", "avi", "webm", "m4v", "mpg", "mpeg", "wmv", "flv", "ogv"]) && !one_of(e, seq!["mp3", "wav", "flac", "ogg", "opus", "m4a", "aac", "wma", "aiff", "mid", "midi"])
            ==> category_of_name(name) == Category::Code,
        extension(name) matches Some(e) && one_of(e, seq!["txt", "md", "rst", "org", "pdf", "doc", "docx", "odt", "rtf", "xls", "xlsx", "ods", "csv", "tsv", "ppt", "pptx", "odp", "epub", "mobi", "tex", "json", "toml", "yaml", "yml", "xml", "kdl", "ini", "conf", "cfg", "log"]) && !one_of(e, seq!["png", "jpg", "jpeg", "gif", "webp", "bmp", "ico", "tiff", "tif", "svg", "svgz", "psd", "xcf", "raw", "cr2", "nef", "heic", "avif"]) && !one_of(e, seq!["mp4", "mkv", "mov", "avi", "webm", "m4v", "mpg", "mpeg", "wmv", "flv", "ogv"]) && !one_of(e, seq!["mp3", "wav", "flac", "ogg", "opus", "m4a", "aac", "wma", "aiff", "mid", "midi"]) && !one_of(e, seq!["rs", "c", "h", "cpp", "hpp", "cc", "py", "js", "ts", "jsx", "tsx", "go", "java", "kt", "rb", "php", "swift", "hs", "ml", "lua", "sh", "bash", "zsh", "fish", "vim", "el", "scm", "clj", "ex", "erl", "sql", "html", "css", "scss", "glsl", "cl", "wgsl"])
            ==> category_of_name(name) == Category::Document,
        extension(name) matches Some(e) && one_of(e, seq!["zip", "tar", "gz", "bz2", "xz", "zst", "7z", "rar", "tgz", "txz", "iso", "img", "dmg", "deb", "rpm", "pkg", "apk", "jar", "whl"]) && !one_of(e, seq!["png", "jpg", "jpeg", "gif", "webp", "bmp", "ico", "tiff", "tif", "svg", "svgz", "psd", "xcf", "raw", "cr2", "nef", "heic", "avif"]) && !one_of(e, seq!["mp4", "mkv", "mov", "avi", "webm", "m4v", "mpg", "mpeg", "wmv", "flv", "ogv"]) && !one_of(e, seq!["mp3", "wav", "flac", "ogg", "opus", "m4a", "aac", "wma", "aiff", "mid", "midi"]) && !one_of(e, seq!["rs", "c", "h", "cpp", "hpp", "cc", "py", "js", "ts", "jsx", "tsx", "go", "java", "kt", "rb", "php", "swift", "hs", "ml", "lua", "sh", "bash", "zsh", "fish", "vim", "el", "scm", "clj", "ex", "erl", "sql", "html", "css", "scss", "glsl", "cl", "wgsl"]) && !one_of(e, seq!["txt", "md", "rst", "org", "pdf", "doc", "docx", "odt", "rtf", "xls", "xlsx", "ods", "csv", "tsv", "ppt", "pptx", "odp", "epub", "mobi", "tex", "json", "toml", "yaml", "yml", "xml", "kdl", "ini", "conf", "cfg", "log"])
            ==> category_of_name(name) == Category::Archive,
        extension(name) matches Some(e) && one_of(e, seq!["so", "a", "o", "dll", "dylib", "exe", "bin", "elf", "class", "pyc", "rlib", "wasm", "qcow2", "vdi", "vmdk"]) && !one_of(e, seq!["png", "jpg", "jpeg", "gif", "webp", "bmp", "ico", "tiff", "tif", "svg", "svgz", "psd", "xcf", "raw", "cr2", "nef", "heic", "avif"]) && !one_of(e, seq!["mp4", "mkv", "mov", "avi", "webm", "m4v", "mpg", "mpeg", "wmv", "flv", "ogv"]) && !one_of(e, seq!["mp3", "wav", "flac", "ogg", "opus", "m4a", "aac", "wma", "aiff", "mid", "midi"]) && !one_of(e, seq!["rs", "c", "h", "cpp", "hpp", "cc", "py", "js", "ts", "jsx", "tsx", "go", "java", "kt", "rb", "php", "swift", "hs", "ml", "lua", "sh", "bash", "zsh", "fish", "vim", "el", "scm", "clj", "ex", "erl", "sql", "html", "css", "scss", "glsl", "cl", "wgsl"]) && !one_of(e, seq!["txt", "md", "rst", "org", "pdf", "doc", "docx", "odt", "rtf", "xls", "xlsx", "ods", "csv", "tsv", "ppt", "pptx", "odp", "epub", "mobi", "tex", "json", "toml", "yaml", "yml", "xml", "kdl", "ini", "conf", "cfg", "log"]) && !one_of(e, seq!["zip", "tar", "gz", "bz2", "xz", "zst", "7z", "rar", "tgz", "txz", "iso", "img", "dmg", "deb", "rpm", "pkg", "apk", "jar", "whl"])
            ==> category_of_name(name) == Category::Binary,
        extension(name) matches Some(e) && !one_of(e, seq!["png", "jpg", "jpeg", "gif", "webp", "bmp", "ico", "tiff", "tif", "svg", "svgz", "psd", "xcf", "raw", "cr2", "nef", "heic", "avif"]) && !one_of(e, seq!["mp4", "mkv", "mov", "avi", "webm", "m4v", "mpg", "mpeg", "wmv", "flv", "ogv"]) && !one_of(e, seq!["mp3", "wav", "flac", "ogg", "opus", "m4a", "aac", "wma", "aiff", "mid", "midi"]) && !one_of(e, seq!["rs", "c", "h", "cpp", "hpp", "cc", "py", "js", "ts", "jsx", "tsx", "go", "java", "kt", "rb", "php", "swift", "hs", "ml", "lua", "sh", "bash", "zsh", "fish", "vim", "el", "scm", "clj", "ex", "erl", "sql", "html", "css", "scss", "glsl", "cl", "wgsl"]) && !one_of(e, seq!["txt", "md", "rst", "org", "pdf", "doc", "docx", "odt", "rtf", "xls", "xlsx", "ods", "csv", "tsv", "ppt", "pptx", "odp", "epub", "mobi", "tex", "json", "toml", "yaml", "yml", "xml", "kdl", "ini", "conf", "cfg", "log"]) && !one_of(e, seq!["zip", "tar", "gz", "bz2", "xz", "zst", "7z", "rar", "tgz", "txz", "iso", "img", "dmg", "deb", "rpm", "pkg", "apk", "jar", "whl"]) && !one_of(e, seq!["so", "a", "o", "dll", "dylib", "exe", "bin", "elf", "class", "pyc", "rlib", "wasm", "qcow2", "vdi", "vmdk"])
            ==> category_of_name(name) == Category::Other,
        extension(name) is None ==> category_of_name(name) == Category::Other,
{
}

} // verus!
