//! Requests to the filesystem service and the computations around them:
//! ordering a directory listing, rendering mode bits, naming file types, and
//! the text the preview pane shows.

use vstd::prelude::*;
use crate::pages::browse::DirEntry;
use vstd::utf8::valid_utf8;
use crate::path::{file_name, path_file_name};
use crate::services::trash::{opt_view, string_from_utf8_lossy, utf8_lossy};
use crate::text::{extension, extension_of, after_last, chars_after_last, is_one_of, one_of, push_char, chars_of, lex_less, lex_lt, lemma_lex_irreflexive, lemma_lex_transitive, lowercase, to_lowercase};

verus! {

/// Work the filesystem service is asked to do. Paths are Unix path text.
#[derive(Debug, Clone, PartialEq, Eq)]
pub enum FsRequest {
    ReadDirectory(String),
    RefreshDirectory(String),
    ReadPreview(String),
    /// (path, is_dir)
    DeletePath(String, bool),
    ReadLastDir,
    SaveLastDir(String),
}

/// An image preview: RGBA pixels, row by row, with its dimensions.
#[derive(Debug, Clone, Default)]
pub struct ImagePreviewData {
    pub width: u32,
    pub height: u32,
    pub pixels: Vec<[u8; 4]>,
}

/// Everything the preview pane shows about one path.
#[derive(Debug, Clone, Default)]
pub struct PreviewData {
    pub name: String,
    pub is_dir: bool,
    pub size: String,
    pub permissions: String,
    pub modified: String,
    pub file_type: String,
    pub target: String,
    pub content_preview: Option<String>,
    pub image_preview: Option<ImagePreviewData>,
}

/// A request with its paths as character sequences.
pub enum RequestView {
    ReadDirectory(Seq<char>),
    RefreshDirectory(Seq<char>),
    ReadPreview(Seq<char>),
    DeletePath(Seq<char>, bool),
    ReadLastDir,
    SaveLastDir(Seq<char>),
}

impl View for FsRequest {
    type V = RequestView;

    open spec fn view(&self) -> RequestView {
        match self {
            FsRequest::ReadDirectory(p) => RequestView::ReadDirectory(p@),
            FsRequest::RefreshDirectory(p) => RequestView::RefreshDirectory(p@),
            FsRequest::ReadPreview(p) => RequestView::ReadPreview(p@),
            FsRequest::DeletePath(p, d) => RequestView::DeletePath(p@, *d),
            FsRequest::ReadLastDir => RequestView::ReadLastDir,
            FsRequest::SaveLastDir(p) => RequestView::SaveLastDir(p@),
        }
    }
}

/// The view of an optional request.
pub open spec fn request_view(r: Option<FsRequest>) -> Option<RequestView> {
    match r {
        Some(q) => Some(q@),
        None => None,
    }
}

// ── Directory listing order ─────────────────────────────────────────

/// Listing order by key: directories before files; within each group by
/// the (lower-cased) name key, by code point.
pub open spec fn keys_before(a_is_dir: bool, a_key: Seq<char>, b_is_dir: bool, b_key: Seq<char>) -> bool {
    ||| a_is_dir && !b_is_dir
    ||| a_is_dir == b_is_dir && lex_lt(a_key, b_key)
}

/// Listing order: directories before files; within each group by name,
/// compared case-insensitively (lower-cased, then by code point).
pub open spec fn listed_before(a: DirEntry, b: DirEntry) -> bool {
    keys_before(a.is_dir, lowercase(a.name@), b.is_dir, lowercase(b.name@))
}

/// Whether an entry comes before another in a listing (see
/// `keys_before`), given their lower-cased names.
pub fn comes_before(a_is_dir: bool, a_key: &Vec<char>, b_is_dir: bool, b_key: &Vec<char>) -> (r: bool)
    ensures
        r == keys_before(a_is_dir, a_key@, b_is_dir, b_key@),
{
    (a_is_dir && !b_is_dir) || (a_is_dir == b_is_dir && lex_less(a_key, b_key))
}

/// Two entries the listing order does not tell apart.
pub open spec fn listed_together(a: DirEntry, b: DirEntry) -> bool {
    a.is_dir == b.is_dir && lowercase(a.name@) == lowercase(b.name@)
}

/// `out` is `input` rearranged by `perm` (`out[k] == input[perm[k]]`, each
/// input position used once), in listing order, with entries the order does
/// not tell apart kept in their input order.
pub open spec fn stable_listing_by(out: Seq<DirEntry>, input: Seq<DirEntry>, perm: Seq<int>) -> bool {
    &&& out.len() == input.len()
    &&& perm.len() == input.len()
    &&& forall|k: int| 0 <= k < perm.len() ==> 0 <= #[trigger] perm[k] < input.len() && out[k] == input[perm[k]]
    &&& forall|k: int, l: int| 0 <= k < l < perm.len() ==> #[trigger] perm[k] != #[trigger] perm[l]
    &&& forall|k: int, l: int| 0 <= k < l < out.len() ==> !listed_before(#[trigger] out[l], #[trigger] out[k])
    &&& forall|k: int, l: int| 0 <= k < l < out.len() && listed_together(#[trigger] out[k], #[trigger] out[l])
        ==> perm[k] < perm[l]
}

/// `out` is the stable listing-order sort of `input`.
pub open spec fn is_listing_of(out: Seq<DirEntry>, input: Seq<DirEntry>) -> bool {
    exists|perm: Seq<int>| stable_listing_by(out, input, perm)
}

/// The invariant of the insertion sort after the first `j` inputs.
spec fn partial_listing(out: Seq<DirEntry>, input: Seq<DirEntry>, perm: Seq<int>, j: int) -> bool {
    &&& out.len() == j
    &&& perm.len() == j
    &&& forall|k: int| 0 <= k < j ==> 0 <= #[trigger] perm[k] < j && out[k] == input[perm[k]]
    &&& forall|k: int, l: int| 0 <= k < l < j ==> #[trigger] perm[k] != #[trigger] perm[l]
    &&& forall|k: int, l: int| 0 <= k < l < j ==> !listed_before(#[trigger] out[l], #[trigger] out[k])
    &&& forall|k: int, l: int| 0 <= k < l < j && listed_together(#[trigger] out[k], #[trigger] out[l])
        ==> perm[k] < perm[l]
}

proof fn lemma_listed_before_transitive(a: DirEntry, b: DirEntry, c: DirEntry)
    requires
        listed_before(a, b),
        listed_before(b, c),
    ensures
        listed_before(a, c),
{
    if a.is_dir == b.is_dir && b.is_dir == c.is_dir {
        lemma_lex_transitive(lowercase(a.name@), lowercase(b.name@), lowercase(c.name@));
    }
}

proof fn lemma_insert_keeps_listing(
    out: Seq<DirEntry>,
    input: Seq<DirEntry>,
    perm: Seq<int>,
    j: int,
    p: int,
)
    requires
        0 <= j < input.len(),
        partial_listing(out, input, perm, j),
        0 <= p <= out.len(),
        forall|k: int| 0 <= k < p ==> !listed_before(input[j], #[trigger] out[k]),
        p < out.len() ==> listed_before(input[j], out[p]),
    ensures
        partial_listing(out.insert(p, input[j]), input, perm.insert(p, j), j + 1),
{
    let x = input[j];
    let o2 = out.insert(p, x);
    let p2 = perm.insert(p, j);
    assert forall|k: int| 0 <= k < j + 1 implies 0 <= #[trigger] p2[k] < j + 1 && o2[k] == input[p2[k]] by {
        if k < p {
            assert(p2[k] == perm[k] && o2[k] == out[k]);
        } else if k > p {
            assert(p2[k] == perm[k - 1] && o2[k] == out[k - 1]);
        }
    }
    assert forall|k: int, l: int| 0 <= k < l < j + 1 implies #[trigger] p2[k] != #[trigger] p2[l] by {
        if k < p && l < p {
            assert(p2[k] == perm[k] && p2[l] == perm[l]);
        } else if k < p && l > p {
            assert(p2[k] == perm[k] && p2[l] == perm[l - 1]);
        } else if k > p && l > p {
            assert(p2[k] == perm[k - 1] && p2[l] == perm[l - 1]);
        } else if k == p {
            assert(p2[l] == perm[l - 1]);
        } else {
            assert(p2[k] == perm[k]);
        }
    }
    assert forall|k: int, l: int| 0 <= k < l < j + 1 implies !listed_before(#[trigger] o2[l], #[trigger] o2[k]) by {
        if l < p {
            assert(o2[k] == out[k] && o2[l] == out[l]);
        } else if k > p {
            assert(o2[k] == out[k - 1] && o2[l] == out[l - 1]);
        } else if k < p && l > p {
            assert(o2[k] == out[k] && o2[l] == out[l - 1]);
        } else if l == p {
            assert(o2[k] == out[k]);
        } else {
            // k == p, l > p: o2[l] is an old entry at or after p
            assert(o2[l] == out[l - 1]);
            assert(listed_before(x, out[p]));
            if listed_before(out[l - 1], x) {
                lemma_listed_before_transitive(out[l - 1], x, out[p]);
                if l - 1 == p {
                    lemma_lex_irreflexive(lowercase(out[p].name@));
                }
            }
        }
    }
    assert forall|k: int, l: int| 0 <= k < l < j + 1 && listed_together(#[trigger] o2[k], #[trigger] o2[l])
        implies p2[k] < p2[l] by {
        if l < p {
            assert(o2[k] == out[k] && o2[l] == out[l] && p2[k] == perm[k] && p2[l] == perm[l]);
        } else if k > p {
            assert(o2[k] == out[k - 1] && o2[l] == out[l - 1] && p2[k] == perm[k - 1] && p2[l] == perm[l - 1]);
        } else if k < p && l > p {
            assert(o2[k] == out[k] && o2[l] == out[l - 1] && p2[k] == perm[k] && p2[l] == perm[l - 1]);
        } else if l == p {
            assert(p2[k] == perm[k]);
        } else {
            // k == p: x is listed together with an old entry at or after p
            assert(o2[l] == out[l - 1]);
            assert(listed_before(x, out[p]));
            if l - 1 == p {
                lemma_lex_irreflexive(lowercase(out[p].name@));
            } else {
                assert(listed_before(out[l - 1], out[p]));
            }
        }
    }
}

/// Order a directory listing as the browse page shows it: directories
/// first, then files; case-insensitively by name within each group, ties
/// kept in the order the listing had them.
pub fn read_directory_internal(listing: Vec<DirEntry>) -> (r: Vec<DirEntry>)
    ensures
        is_listing_of(r@, listing@),
{
    let n = listing.len();
    let mut out: Vec<DirEntry> = Vec::new();
    let mut keys: Vec<Vec<char>> = Vec::new();
    let ghost mut perm: Seq<int> = Seq::empty();
    let mut j: usize = 0;
    while j < n
        invariant
            n == listing@.len(),
            j <= n,
            partial_listing(out@, listing@, perm, j as int),
            keys@.len() == out@.len(),
            forall|k: int| 0 <= k < keys@.len() ==> #[trigger] keys@[k]@ == lowercase(out@[k].name@),
        decreases n - j,
    {
        let x = listing[j].duplicate();
        let lowered = to_lowercase(x.name.as_str());
        let xk = chars_of(lowered.as_str());
        let mut p: usize = 0;
        while p < out.len()
            invariant
                p <= out@.len(),
                keys@.len() == out@.len(),
                forall|k: int| 0 <= k < keys@.len() ==> #[trigger] keys@[k]@ == lowercase(out@[k].name@),
                xk@ == lowercase(x.name@),
                forall|k: int| 0 <= k < p ==> !listed_before(x, #[trigger] out@[k]),
            ensures
                p <= out@.len(),
                forall|k: int| 0 <= k < p ==> !listed_before(x, #[trigger] out@[k]),
                p < out@.len() ==> listed_before(x, out@[p as int]),
            decreases out@.len() - p,
        {
            let before = comes_before(x.is_dir, &xk, out[p].is_dir, &keys[p]);
            proof {
                assert(keys@[p as int]@ == lowercase(out@[p as int].name@));
            }
            if before {
                break;
            }
            p = p + 1;
        }
        proof {
            lemma_insert_keeps_listing(out@, listing@, perm, j as int, p as int);
        }
        let ghost old_keys = keys@;
        let ghost old_out = out@;
        out.insert(p, x);
        keys.insert(p, xk);
        proof {
            perm = perm.insert(p as int, j as int);
            assert forall|k: int| 0 <= k < keys@.len() implies #[trigger] keys@[k]@ == lowercase(out@[k].name@) by {
                if k < p {
                    assert(keys@[k] == old_keys[k] && out@[k] == old_out[k]);
                } else if k > p {
                    assert(keys@[k] == old_keys[k - 1] && out@[k] == old_out[k - 1]);
                }
            }
        }
        j = j + 1;
    }
    proof {
        assert(stable_listing_by(out@, listing@, perm));
    }
    out
}

// ── Mode bits ───────────────────────────────────────────────────────

/// `c` when the `bit` of `mode` is set, else `-`.
pub open spec fn mode_char(mode: u32, bit: u32, c: char) -> char {
    if mode & bit != 0 { c } else { '-' }
}

/// The `ls -l` rendering of a mode: the directory flag, then read, write and
/// execute for owner, group and others.
pub open spec fn permission_text(mode: u32) -> Seq<char> {
    seq![
        mode_char(mode, 0o40000, 'd'),
        mode_char(mode, 0o400, 'r'),
        mode_char(mode, 0o200, 'w'),
        mode_char(mode, 0o100, 'x'),
        mode_char(mode, 0o040, 'r'),
        mode_char(mode, 0o020, 'w'),
        mode_char(mode, 0o010, 'x'),
        mode_char(mode, 0o004, 'r'),
        mode_char(mode, 0o002, 'w'),
        mode_char(mode, 0o001, 'x'),
    ]
}

fn push_mode_char(s: &mut String, mode: u32, bit: u32, c: char)
    ensures
        final(s)@ == old(s)@.push(mode_char(mode, bit, c)),
{
    push_char(s, if mode & bit != 0 { c } else { '-' });
}

pub fn format_permissions(mode: u32) -> (r: String)
    ensures
        r@ == permission_text(mode),
{
    let mut s = String::new();
    push_mode_char(&mut s, mode, 0o40000, 'd');
    push_mode_char(&mut s, mode, 0o400, 'r');
    push_mode_char(&mut s, mode, 0o200, 'w');
    push_mode_char(&mut s, mode, 0o100, 'x');
    push_mode_char(&mut s, mode, 0o040, 'r');
    push_mode_char(&mut s, mode, 0o020, 'w');
    push_mode_char(&mut s, mode, 0o010, 'x');
    push_mode_char(&mut s, mode, 0o004, 'r');
    push_mode_char(&mut s, mode, 0o002, 'w');
    push_mode_char(&mut s, mode, 0o001, 'x');
    assert(s@ =~= permission_text(mode));
    s
}

/// Whether bit `k` (counting from the least significant) of `mode` is set.
pub open spec fn mode_bit(mode: u32, k: u32) -> bool {
    (mode >> k) & 1u32 == 1u32
}

/// The permission text has ten characters: position 0 is `d` exactly for a
/// directory (bit 14); positions 1 to 9 are `r`, `w`, `x` for owner, group
/// and others, each shown exactly when its bit (8 down to 0) is set, and
/// `-` otherwise, whatever the other bits are.
pub proof fn lemma_permission_positions(mode: u32)
    ensures
        permission_text(mode).len() == 10,
        permission_text(mode)[0] == (if mode_bit(mode, 14) { 'd' } else { '-' }),
        permission_text(mode)[1] == (if mode_bit(mode, 8) { 'r' } else { '-' }),
        permission_text(mode)[2] == (if mode_bit(mode, 7) { 'w' } else { '-' }),
        permission_text(mode)[3] == (if mode_bit(mode, 6) { 'x' } else { '-' }),
        permission_text(mode)[4] == (if mode_bit(mode, 5) { 'r' } else { '-' }),
        permission_text(mode)[5] == (if mode_bit(mode, 4) { 'w' } else { '-' }),
        permission_text(mode)[6] == (if mode_bit(mode, 3) { 'x' } else { '-' }),
        permission_text(mode)[7] == (if mode_bit(mode, 2) { 'r' } else { '-' }),
        permission_text(mode)[8] == (if mode_bit(mode, 1) { 'w' } else { '-' }),
        permission_text(mode)[9] == (if mode_bit(mode, 0) { 'x' } else { '-' }),
{
    assert((mode & 0o40000u32 != 0) == ((mode >> 14u32) & 1u32 == 1u32)) by (bit_vector);
    assert((mode & 0o400u32 != 0) == ((mode >> 8u32) & 1u32 == 1u32)) by (bit_vector);
    assert((mode & 0o200u32 != 0) == ((mode >> 7u32) & 1u32 == 1u32)) by (bit_vector);
    assert((mode & 0o100u32 != 0) == ((mode >> 6u32) & 1u32 == 1u32)) by (bit_vector);
    assert((mode & 0o040u32 != 0) == ((mode >> 5u32) & 1u32 == 1u32)) by (bit_vector);
    assert((mode & 0o020u32 != 0) == ((mode >> 4u32) & 1u32 == 1u32)) by (bit_vector);
    assert((mode & 0o010u32 != 0) == ((mode >> 3u32) & 1u32 == 1u32)) by (bit_vector);
    assert((mode & 0o004u32 != 0) == ((mode >> 2u32) & 1u32 == 1u32)) by (bit_vector);
    assert((mode & 0o002u32 != 0) == ((mode >> 1u32) & 1u32 == 1u32)) by (bit_vector);
    assert((mode & 0o001u32 != 0) == ((mode >> 0u32) & 1u32 == 1u32)) by (bit_vector);
}

// ── File types ──────────────────────────────────────────────────────

/// The file type named by the text after the last `.` of a name (the whole
/// name when there is none), matched as written.
pub open spec fn file_type_of_ext(ext: Seq<char>) -> &'static str {
    if ext == "rs"@ { "Rust source" }
    else if ext == "toml"@ { "TOML config" }
    else if ext == "json"@ { "JSON data" }
    else if one_of(ext, seq!["yaml", "yml"]) { "YAML config" }
    else if ext == "png"@ { "PNG image" }
    else if one_of(ext, seq!["jpg", "jpeg"]) { "JPEG image" }
    else if ext == "svg"@ { "SVG image" }
    else if ext == "gif"@ { "GIF image" }
    else if ext == "mp3"@ { "MP3 audio" }
    else if ext == "wav"@ { "WAV audio" }
    else if ext == "flac"@ { "FLAC audio" }
    else if ext == "mp4"@ { "MP4 video" }
    else if ext == "mkv"@ { "Matroska video" }
    else if ext == "zip"@ { "ZIP archive" }
    else if ext == "tar"@ { "Tar archive" }
    else if ext == "gz"@ { "Gzip archive" }
    else if ext == "py"@ { "Python source" }
    else if one_of(ext, seq!["sh", "bash"]) { "Shell script" }
    else if ext == "md"@ { "Markdown" }
    else if ext == "txt"@ { "Plain text" }
    else if one_of(ext, seq!["c", "h"]) { "C source" }
    else if one_of(ext, seq!["cpp", "hpp", "cc"]) { "C++ source" }
    else if ext == "hs"@ { "Haskell source" }
    else if ext == "exe"@ { "Windows executable" }
    else if ext == "pdf"@ { "PDF document" }
    else { "File" }
}

/// The type shown for an entry: `Directory`, else the type its extension
/// names.
pub open spec fn file_type_text(name: Seq<char>, is_dir: bool) -> Seq<char> {
    if is_dir { "Directory"@ } else { file_type_of_ext(after_last(name, '.'))@ }
}

/// The file-type table: a non-directory is typed by the text after its
/// name's last `.`, each listed extension giving its type (matched as
/// written), and any other text giving `File`.
#[verifier::spinoff_prover]
#[verifier::rlimit(60)]
pub proof fn lemma_file_type_table(ext: Seq<char>)
    ensures
        ext == "rs"@ ==> file_type_of_ext(ext) == "Rust source",
        ext == "toml"@ ==> file_type_of_ext(ext) == "TOML config",
        ext == "json"@ ==> file_type_of_ext(ext) == "JSON data",
        ext == "yaml"@ ==> file_type_of_ext(ext) == "YAML config",
        ext == "yml"@ ==> file_type_of_ext(ext) == "YAML config",
        ext == "png"@ ==> file_type_of_ext(ext) == "PNG image",
        ext == "jpg"@ ==> file_type_of_ext(ext) == "JPEG image",
        ext == "jpeg"@ ==> file_type_of_ext(ext) == "JPEG image",
        ext == "svg"@ ==> file_type_of_ext(ext) == "SVG image",
        ext == "gif"@ ==> file_type_of_ext(ext) == "GIF image",
        ext == "mp3"@ ==> file_type_of_ext(ext) == "MP3 audio",
        ext == "wav"@ ==> file_type_of_ext(ext) == "WAV audio",
        ext == "flac"@ ==> file_type_of_ext(ext) == "FLAC audio",
        ext == "mp4"@ ==> file_type_of_ext(ext) == "MP4 video",
        ext == "mkv"@ ==> file_type_of_ext(ext) == "Matroska video",
        ext == "zip"@ ==> file_type_of_ext(ext) == "ZIP archive",
        ext == "tar"@ ==> file_type_of_ext(ext) == "Tar archive",
        ext == "gz"@ ==> file_type_of_ext(ext) == "Gzip archive",
        ext == "py"@ ==> file_type_of_ext(ext) == "Python source",
        ext == "sh"@ ==> file_type_of_ext(ext) == "Shell script",
        ext == "bash"@ ==> file_type_of_ext(ext) == "Shell script",
        ext == "md"@ ==> file_type_of_ext(ext) == "Markdown",
        ext == "txt"@ ==> file_type_of_ext(ext) == "Plain text",
        ext == "c"@ ==> file_type_of_ext(ext) == "C source",
        ext == "h"@ ==> file_type_of_ext(ext) == "C source",
        ext == "cpp"@ ==> file_type_of_ext(ext) == "C++ source",
        ext == "hpp"@ ==> file_type_of_ext(ext) == "C++ source",
        ext == "cc"@ ==> file_type_of_ext(ext) == "C++ source",
        ext == "hs"@ ==> file_type_of_ext(ext) == "Haskell source",
        ext == "exe"@ ==> file_type_of_ext(ext) == "Windows executable",
        ext == "pdf"@ ==> file_type_of_ext(ext) == "PDF document",
        !one_of(ext, seq!["rs", "toml", "json", "yaml", "yml", "png", "jpg", "jpeg", "svg", "gif", "mp3", "wav", "flac", "mp4", "mkv", "zip", "tar", "gz", "py", "sh", "bash", "md", "txt", "c", "h", "cpp", "hpp", "cc", "hs", "exe", "pdf"]) ==> file_type_of_ext(ext) == "File",
        forall|name: Seq<char>| #[trigger] file_type_text(name, false) == file_type_of_ext(after_last(name, '.'))@,
        forall|name: Seq<char>| #[trigger] file_type_text(name, true) == "Directory"@,
{
    if ext == "toml"@ {
        assert(ext != "rs"@) by { reveal_strlit("toml"); reveal_strlit("rs"); assert(ext.len() != "rs"@.len()); }
    }
    if ext == "json"@ {
        assert(ext != "rs"@) by { reveal_strlit("json"); reveal_strlit("rs"); assert(ext.len() != "rs"@.len()); }
        assert(ext != "toml"@) by { reveal_strlit("json"); reveal_strlit("toml"); assert(ext[0] != "toml"@[0]); }
    }
    if ext == "yaml"@ {
        assert(ext != "rs"@) by { reveal_strlit("yaml"); reveal_strlit("rs"); assert(ext.len() != "rs"@.len()); }
        assert(ext != "toml"@) by { reveal_strlit("yaml"); reveal_strlit("toml"); assert(ext[0] != "toml"@[0]); }
        assert(ext != "json"@) by { reveal_strlit("yaml"); reveal_strlit("json"); assert(ext[0] != "json"@[0]); }
    }
    if ext == "yml"@ {
        assert(ext != "rs"@) by { reveal_strlit("yml"); reveal_strlit("rs"); assert(ext.len() != "rs"@.len()); }
        assert(ext != "toml"@) by { reveal_strlit("yml"); reveal_strlit("toml"); assert(ext.len() != "toml"@.len()); }
        assert(ext != "json"@) by { reveal_strlit("yml"); reveal_strlit("json"); assert(ext.len() != "json"@.len()); }
        assert(ext != "yaml"@) by { reveal_strlit("yml"); reveal_strlit("yaml"); assert(ext.len() != "yaml"@.len()); }
    }
    if ext == "png"@ {
        assert(ext != "rs"@) by { reveal_strlit("png"); reveal_strlit("rs"); assert(ext.len() != "rs"@.len()); }
        assert(ext != "toml"@) by { reveal_strlit("png"); reveal_strlit("toml"); assert(ext.len() != "toml"@.len()); }
        assert(ext != "json"@) by { reveal_strlit("png"); reveal_strlit("json"); assert(ext.len() != "json"@.len()); }
        assert(ext != "yaml"@) by { reveal_strlit("png"); reveal_strlit("yaml"); assert(ext.len() != "yaml"@.len()); }
        assert(ext != "yml"@) by { reveal_strlit("png"); reveal_strlit("yml"); assert(ext[0] != "yml"@[0]); }
    }
    if ext == "jpg"@ {
        assert(ext != "rs"@) by { reveal_strlit("jpg"); reveal_strlit("rs"); assert(ext.len() != "rs"@.len()); }
        assert(ext != "toml"@) by { reveal_strlit("jpg"); reveal_strlit("toml"); assert(ext.len() != "toml"@.len()); }
        assert(ext != "json"@) by { reveal_strlit("jpg"); reveal_strlit("json"); assert(ext.len() != "json"@.len()); }
        assert(ext != "yaml"@) by { reveal_strlit("jpg"); reveal_strlit("yaml"); assert(ext.len() != "yaml"@.len()); }
        assert(ext != "yml"@) by { reveal_strlit("jpg"); reveal_strlit("yml"); assert(ext[0] != "yml"@[0]); }
        assert(ext != "png"@) by { reveal_strlit("jpg"); reveal_strlit("png"); assert(ext[0] != "png"@[0]); }
    }
    if ext == "jpeg"@ {
        assert(ext != "rs"@) by { reveal_strlit("jpeg"); reveal_strlit("rs"); assert(ext.len() != "rs"@.len()); }
        assert(ext != "toml"@) by { reveal_strlit("jpeg"); reveal_strlit("toml"); assert(ext[0] != "toml"@[0]); }
        assert(ext != "json"@) by { reveal_strlit("jpeg"); reveal_strlit("json"); assert(ext[1] != "json"@[1]); }
        assert(ext != "yaml"@) by { reveal_strlit("jpeg"); reveal_strlit("yaml"); assert(ext[0] != "yaml"@[0]); }
        assert(ext != "yml"@) by { reveal_strlit("jpeg"); reveal_strlit("yml"); assert(ext.len() != "yml"@.len()); }
        assert(ext != "png"@) by { reveal_strlit("jpeg"); reveal_strlit("png"); assert(ext.len() != "png"@.len()); }
        assert(ext != "jpg"@) by { reveal_strlit("jpeg"); reveal_strlit("jpg"); assert(ext.len() != "jpg"@.len()); }
    }
    if ext == "svg"@ {
        assert(ext != "rs"@) by { reveal_strlit("svg"); reveal_strlit("rs"); assert(ext.len() != "rs"@.len()); }
        assert(ext != "toml"@) by { reveal_strlit("svg"); reveal_strlit("toml"); assert(ext.len() != "toml"@.len()); }
        assert(ext != "json"@) by { reveal_strlit("svg"); reveal_strlit("json"); assert(ext.len() != "json"@.len()); }
        assert(ext != "yaml"@) by { reveal_strlit("svg"); reveal_strlit("yaml"); assert(ext.len() != "yaml"@.len()); }
        assert(ext != "yml"@) by { reveal_strlit("svg"); reveal_strlit("yml"); assert(ext[0] != "yml"@[0]); }
        assert(ext != "png"@) by { reveal_strlit("svg"); reveal_strlit("png"); assert(ext[0] != "png"@[0]); }
        assert(ext != "jpg"@) by { reveal_strlit("svg"); reveal_strlit("jpg"); assert(ext[0] != "jpg"@[0]); }
        assert(ext != "jpeg"@) by { reveal_strlit("svg"); reveal_strlit("jpeg"); assert(ext.len() != "jpeg"@.len()); }
    }
    if ext == "gif"@ {
        assert(ext != "rs"@) by { reveal_strlit("gif"); reveal_strlit("rs"); assert(ext.len() != "rs"@.len()); }
        assert(ext != "toml"@) by { reveal_strlit("gif"); reveal_strlit("toml"); assert(ext.len() != "toml"@.len()); }
        assert(ext != "json"@) by { reveal_strlit("gif"); reveal_strlit("json"); assert(ext.len() != "json"@.len()); }
        assert(ext != "yaml"@) by { reveal_strlit("gif"); reveal_strlit("yaml"); assert(ext.len() != "yaml"@.len()); }
        assert(ext != "yml"@) by { reveal_strlit("gif"); reveal_strlit("yml"); assert(ext[0] != "yml"@[0]); }
        assert(ext != "png"@) by { reveal_strlit("gif"); reveal_strlit("png"); assert(ext[0] != "png"@[0]); }
        assert(ext != "jpg"@) by { reveal_strlit("gif"); reveal_strlit("jpg"); assert(ext[0] != "jpg"@[0]); }
        assert(ext != "jpeg"@) by { reveal_strlit("gif"); reveal_strlit("jpeg"); assert(ext.len() != "jpeg"@.len()); }
        assert(ext != "svg"@) by { reveal_strlit("gif"); reveal_strlit("svg"); assert(ext[0] != "svg"@[0]); }
    }
    if ext == "mp3"@ {
        assert(ext != "rs"@) by { reveal_strlit("mp3"); reveal_strlit("rs"); assert(ext.len() != "rs"@.len()); }
        assert(ext != "toml"@) by { reveal_strlit("mp3"); reveal_strlit("toml"); assert(ext.len() != "toml"@.len()); }
        assert(ext != "json"@) by { reveal_strlit("mp3"); reveal_strlit("json"); assert(ext.len() != "json"@.len()); }
        assert(ext != "yaml"@) by { reveal_strlit("mp3"); reveal_strlit("yaml"); assert(ext.len() != "yaml"@.len()); }
        assert(ext != "yml"@) by { reveal_strlit("mp3"); reveal_strlit("yml"); assert(ext[0] != "yml"@[0]); }
        assert(ext != "png"@) by { reveal_strlit("mp3"); reveal_strlit("png"); assert(ext[0] != "png"@[0]); }
        assert(ext != "jpg"@) by { reveal_strlit("mp3"); reveal_strlit("jpg"); assert(ext[0] != "jpg"@[0]); }
        assert(ext != "jpeg"@) by { reveal_strlit("mp3"); reveal_strlit("jpeg"); assert(ext.len() != "jpeg"@.len()); }
        assert(ext != "svg"@) by { reveal_strlit("mp3"); reveal_strlit("svg"); assert(ext[0] != "svg"@[0]); }
        assert(ext != "gif"@) by { reveal_strlit("mp3"); reveal_strlit("gif"); assert(ext[0] != "gif"@[0]); }
    }
    if ext == "wav"@ {
        assert(ext != "rs"@) by { reveal_strlit("wav"); reveal_strlit("rs"); assert(ext.len() != "rs"@.len()); }
        assert(ext != "toml"@) by { reveal_strlit("wav"); reveal_strlit("toml"); assert(ext.len() != "toml"@.len()); }
        assert(ext != "json"@) by { reveal_strlit("wav"); reveal_strlit("json"); assert(ext.len() != "json"@.len()); }
        assert(ext != "yaml"@) by { reveal_strlit("wav"); reveal_strlit("yaml"); assert(ext.len() != "yaml"@.len()); }
        assert(ext != "yml"@) by { reveal_strlit("wav"); reveal_strlit("yml"); assert(ext[0] != "yml"@[0]); }
        assert(ext != "png"@) by { reveal_strlit("wav"); reveal_strlit("png"); assert(ext[0] != "png"@[0]); }
        assert(ext != "jpg"@) by { reveal_strlit("wav"); reveal_strlit("jpg"); assert(ext[0] != "jpg"@[0]); }
        assert(ext != "jpeg"@) by { reveal_strlit("wav"); reveal_strlit("jpeg"); assert(ext.len() != "jpeg"@.len()); }
        assert(ext != "svg"@) by { reveal_strlit("wav"); reveal_strlit("svg"); assert(ext[0] != "svg"@[0]); }
        assert(ext != "gif"@) by { reveal_strlit("wav"); reveal_strlit("gif"); assert(ext[0] != "gif"@[0]); }
        assert(ext != "mp3"@) by { reveal_strlit("wav"); reveal_strlit("mp3"); assert(ext[0] != "mp3"@[0]); }
    }
    if ext == "flac"@ {
        assert(ext != "rs"@) by { reveal_strlit("flac"); reveal_strlit("rs"); assert(ext.len() != "rs"@.len()); }
        assert(ext != "toml"@) by { reveal_strlit("flac"); reveal_strlit("toml"); assert(ext[0] != "toml"@[0]); }
        assert(ext != "json"@) by { reveal_strlit("flac"); reveal_strlit("json"); assert(ext[0] != "json"@[0]); }
        assert(ext != "yaml"@) by { reveal_strlit("flac"); reveal_strlit("yaml"); assert(ext[0] != "yaml"@[0]); }
        assert(ext != "yml"@) by { reveal_strlit("flac"); reveal_strlit("yml"); assert(ext.len() != "yml"@.len()); }
        assert(ext != "png"@) by { reveal_strlit("flac"); reveal_strlit("png"); assert(ext.len() != "png"@.len()); }
        assert(ext != "jpg"@) by { reveal_strlit("flac"); reveal_strlit("jpg"); assert(ext.len() != "jpg"@.len()); }
        assert(ext != "jpeg"@) by { reveal_strlit("flac"); reveal_strlit("jpeg"); assert(ext[0] != "jpeg"@[0]); }
        assert(ext != "svg"@) by { reveal_strlit("flac"); reveal_strlit("svg"); assert(ext.len() != "svg"@.len()); }
        assert(ext != "gif"@) by { reveal_strlit("flac"); reveal_strlit("gif"); assert(ext.len() != "gif"@.len()); }
        assert(ext != "mp3"@) by { reveal_strlit("flac"); reveal_strlit("mp3"); assert(ext.len() != "mp3"@.len()); }
        assert(ext != "wav"@) by { reveal_strlit("flac"); reveal_strlit("wav"); assert(ext.len() != "wav"@.len()); }
    }
    if ext == "mp4"@ {
        assert(ext != "rs"@) by { reveal_strlit("mp4"); reveal_strlit("rs"); assert(ext.len() != "rs"@.len()); }
        assert(ext != "toml"@) by { reveal_strlit("mp4"); reveal_strlit("toml"); assert(ext.len() != "toml"@.len()); }
        assert(ext != "json"@) by { reveal_strlit("mp4"); reveal_strlit("json"); assert(ext.len() != "json"@.len()); }
        assert(ext != "yaml"@) by { reveal_strlit("mp4"); reveal_strlit("yaml"); assert(ext.len() != "yaml"@.len()); }
        assert(ext != "yml"@) by { reveal_strlit("mp4"); reveal_strlit("yml"); assert(ext[0] != "yml"@[0]); }
        assert(ext != "png"@) by { reveal_strlit("mp4"); reveal_strlit("png"); assert(ext[0] != "png"@[0]); }
        assert(ext != "jpg"@) by { reveal_strlit("mp4"); reveal_strlit("jpg"); assert(ext[0] != "jpg"@[0]); }
        assert(ext != "jpeg"@) by { reveal_strlit("mp4"); reveal_strlit("jpeg"); assert(ext.len() != "jpeg"@.len()); }
        assert(ext != "svg"@) by { reveal_strlit("mp4"); reveal_strlit("svg"); assert(ext[0] != "svg"@[0]); }
        assert(ext != "gif"@) by { reveal_strlit("mp4"); reveal_strlit("gif"); assert(ext[0] != "gif"@[0]); }
        assert(ext != "mp3"@) by { reveal_strlit("mp4"); reveal_strlit("mp3"); assert(ext[2] != "mp3"@[2]); }
        assert(ext != "wav"@) by { reveal_strlit("mp4"); reveal_strlit("wav"); assert(ext[0] != "wav"@[0]); }
        assert(ext != "flac"@) by { reveal_strlit("mp4"); reveal_strlit("flac"); assert(ext.len() != "flac"@.len()); }
    }
    if ext == "mkv"@ {
        assert(ext != "rs"@) by { reveal_strlit("mkv"); reveal_strlit("rs"); assert(ext.len() != "rs"@.len()); }
        assert(ext != "toml"@) by { reveal_strlit("mkv"); reveal_strlit("toml"); assert(ext.len() != "toml"@.len()); }
        assert(ext != "json"@) by { reveal_strlit("mkv"); reveal_strlit("json"); assert(ext.len() != "json"@.len()); }
        assert(ext != "yaml"@) by { reveal_strlit("mkv"); reveal_strlit("yaml"); assert(ext.len() != "yaml"@.len()); }
        assert(ext != "yml"@) by { reveal_strlit("mkv"); reveal_strlit("yml"); assert(ext[0] != "yml"@[0]); }
        assert(ext != "png"@) by { reveal_strlit("mkv"); reveal_strlit("png"); assert(ext[0] != "png"@[0]); }
        assert(ext != "jpg"@) by { reveal_strlit("mkv"); reveal_strlit("jpg"); assert(ext[0] != "jpg"@[0]); }
        assert(ext != "jpeg"@) by { reveal_strlit("mkv"); reveal_strlit("jpeg"); assert(ext.len() != "jpeg"@.len()); }
        assert(ext != "svg"@) by { reveal_strlit("mkv"); reveal_strlit("svg"); assert(ext[0] != "svg"@[0]); }
        assert(ext != "gif"@) by { reveal_strlit("mkv"); reveal_strlit("gif"); assert(ext[0] != "gif"@[0]); }
        assert(ext != "mp3"@) by { reveal_strlit("mkv"); reveal_strlit("mp3"); assert(ext[1] != "mp3"@[1]); }
        assert(ext != "wav"@) by { reveal_strlit("mkv"); reveal_strlit("wav"); assert(ext[0] != "wav"@[0]); }
        assert(ext != "flac"@) by { reveal_strlit("mkv"); reveal_strlit("flac"); assert(ext.len() != "flac"@.len()); }
        assert(ext != "mp4"@) by { reveal_strlit("mkv"); reveal_strlit("mp4"); assert(ext[1] != "mp4"@[1]); }
    }
    if ext == "zip"@ {
        assert(ext != "rs"@) by { reveal_strlit("zip"); reveal_strlit("rs"); assert(ext.len() != "rs"@.len()); }
        assert(ext != "toml"@) by { reveal_strlit("zip"); reveal_strlit("toml"); assert(ext.len() != "toml"@.len()); }
        assert(ext != "json"@) by { reveal_strlit("zip"); reveal_strlit("json"); assert(ext.len() != "json"@.len()); }
        assert(ext != "yaml"@) by { reveal_strlit("zip"); reveal_strlit("yaml"); assert(ext.len() != "yaml"@.len()); }
        assert(ext != "yml"@) by { reveal_strlit("zip"); reveal_strlit("yml"); assert(ext[0] != "yml"@[0]); }
        assert(ext != "png"@) by { reveal_strlit("zip"); reveal_strlit("png"); assert(ext[0] != "png"@[0]); }
        assert(ext != "jpg"@) by { reveal_strlit("zip"); reveal_strlit("jpg"); assert(ext[0] != "jpg"@[0]); }
        assert(ext != "jpeg"@) by { reveal_strlit("zip"); reveal_strlit("jpeg"); assert(ext.len() != "jpeg"@.len()); }
        assert(ext != "svg"@) by { reveal_strlit("zip"); reveal_strlit("svg"); assert(ext[0] != "svg"@[0]); }
        assert(ext != "gif"@) by { reveal_strlit("zip"); reveal_strlit("gif"); assert(ext[0] != "gif"@[0]); }
        assert(ext != "mp3"@) by { reveal_strlit("zip"); reveal_strlit("mp3"); assert(ext[0] != "mp3"@[0]); }
        assert(ext != "wav"@) by { reveal_strlit("zip"); reveal_strlit("wav"); assert(ext[0] != "wav"@[0]); }
        assert(ext != "flac"@) by { reveal_strlit("zip"); reveal_strlit("flac"); assert(ext.len() != "flac"@.len()); }
        assert(ext != "mp4"@) by { reveal_strlit("zip"); reveal_strlit("mp4"); assert(ext[0] != "mp4"@[0]); }
        assert(ext != "mkv"@) by { reveal_strlit("zip"); reveal_strlit("mkv"); assert(ext[0] != "mkv"@[0]); }
    }
    if ext == "tar"@ {
        assert(ext != "rs"@) by { reveal_strlit("tar"); reveal_strlit("rs"); assert(ext.len() != "rs"@.len()); }
        assert(ext != "toml"@) by { reveal_strlit("tar"); reveal_strlit("toml"); assert(ext.len() != "toml"@.len()); }
        assert(ext != "json"@) by { reveal_strlit("tar"); reveal_strlit("json"); assert(ext.len() != "json"@.len()); }
        assert(ext != "yaml"@) by { reveal_strlit("tar"); reveal_strlit("yaml"); assert(ext.len() != "yaml"@.len()); }
        assert(ext != "yml"@) by { reveal_strlit("tar"); reveal_strlit("yml"); assert(ext[0] != "yml"@[0]); }
        assert(ext != "png"@) by { reveal_strlit("tar"); reveal_strlit("png"); assert(ext[0] != "png"@[0]); }
        assert(ext != "jpg"@) by { reveal_strlit("tar"); reveal_strlit("jpg"); assert(ext[0] != "jpg"@[0]); }
        assert(ext != "jpeg"@) by { reveal_strlit("tar"); reveal_strlit("jpeg"); assert(ext.len() != "jpeg"@.len()); }
        assert(ext != "svg"@) by { reveal_strlit("tar"); reveal_strlit("svg"); assert(ext[0] != "svg"@[0]); }
        assert(ext != "gif"@) by { reveal_strlit("tar"); reveal_strlit("gif"); assert(ext[0] != "gif"@[0]); }
        assert(ext != "mp3"@) by { reveal_strlit("tar"); reveal_strlit("mp3"); assert(ext[0] != "mp3"@[0]); }
        assert(ext != "wav"@) by { reveal_strlit("tar"); reveal_strlit("wav"); assert(ext[0] != "wav"@[0]); }
        assert(ext != "flac"@) by { reveal_strlit("tar"); reveal_strlit("flac"); assert(ext.len() != "flac"@.len()); }
        assert(ext != "mp4"@) by { reveal_strlit("tar"); reveal_strlit("mp4"); assert(ext[0] != "mp4"@[0]); }
        assert(ext != "mkv"@) by { reveal_strlit("tar"); reveal_strlit("mkv"); assert(ext[0] != "mkv"@[0]); }
        assert(ext != "zip"@) by { reveal_strlit("tar"); reveal_strlit("zip"); assert(ext[0] != "zip"@[0]); }
    }
    if ext == "gz"@ {
        assert(ext != "rs"@) by { reveal_strlit("gz"); reveal_strlit("rs"); assert(ext[0] != "rs"@[0]); }
        assert(ext != "toml"@) by { reveal_strlit("gz"); reveal_strlit("toml"); assert(ext.len() != "toml"@.len()); }
        assert(ext != "json"@) by { reveal_strlit("gz"); reveal_strlit("json"); assert(ext.len() != "json"@.len()); }
        assert(ext != "yaml"@) by { reveal_strlit("gz"); reveal_strlit("yaml"); assert(ext.len() != "yaml"@.len()); }
        assert(ext != "yml"@) by { reveal_strlit("gz"); reveal_strlit("yml"); assert(ext.len() != "yml"@.len()); }
        assert(ext != "png"@) by { reveal_strlit("gz"); reveal_strlit("png"); assert(ext.len() != "png"@.len()); }
        assert(ext != "jpg"@) by { reveal_strlit("gz"); reveal_strlit("jpg"); assert(ext.len() != "jpg"@.len()); }
        assert(ext != "jpeg"@) by { reveal_strlit("gz"); reveal_strlit("jpeg"); assert(ext.len() != "jpeg"@.len()); }
        assert(ext != "svg"@) by { reveal_strlit("gz"); reveal_strlit("svg"); assert(ext.len() != "svg"@.len()); }
        assert(ext != "gif"@) by { reveal_strlit("gz"); reveal_strlit("gif"); assert(ext.len() != "gif"@.len()); }
        assert(ext != "mp3"@) by { reveal_strlit("gz"); reveal_strlit("mp3"); assert(ext.len() != "mp3"@.len()); }
        assert(ext != "wav"@) by { reveal_strlit("gz"); reveal_strlit("wav"); assert(ext.len() != "wav"@.len()); }
        assert(ext != "flac"@) by { reveal_strlit("gz"); reveal_strlit("flac"); assert(ext.len() != "flac"@.len()); }
        assert(ext != "mp4"@) by { reveal_strlit("gz"); reveal_strlit("mp4"); assert(ext.len() != "mp4"@.len()); }
        assert(ext != "mkv"@) by { reveal_strlit("gz"); reveal_strlit("mkv"); assert(ext.len() != "mkv"@.len()); }
        assert(ext != "zip"@) by { reveal_strlit("gz"); reveal_strlit("zip"); assert(ext.len() != "zip"@.len()); }
        assert(ext != "tar"@) by { reveal_strlit("gz"); reveal_strlit("tar"); assert(ext.len() != "tar"@.len()); }
    }
    if ext == "py"@ {
        assert(ext != "rs"@) by { reveal_strlit("py"); reveal_strlit("rs"); assert(ext[0] != "rs"@[0]); }
        assert(ext != "toml"@) by { reveal_strlit("py"); reveal_strlit("toml"); assert(ext.len() != "toml"@.len()); }
        assert(ext != "json"@) by { reveal_strlit("py"); reveal_strlit("json"); assert(ext.len() != "json"@.len()); }
        assert(ext != "yaml"@) by { reveal_strlit("py"); reveal_strlit("yaml"); assert(ext.len() != "yaml"@.len()); }
        assert(ext != "yml"@) by { reveal_strlit("py"); reveal_strlit("yml"); assert(ext.len() != "yml"@.len()); }
        assert(ext != "png"@) by { reveal_strlit("py"); reveal_strlit("png"); assert(ext.len() != "png"@.len()); }
        assert(ext != "jpg"@) by { reveal_strlit("py"); reveal_strlit("jpg"); assert(ext.len() != "jpg"@.len()); }
        assert(ext != "jpeg"@) by { reveal_strlit("py"); reveal_strlit("jpeg"); assert(ext.len() != "jpeg"@.len()); }
        assert(ext != "svg"@) by { reveal_strlit("py"); reveal_strlit("svg"); assert(ext.len() != "svg"@.len()); }
        assert(ext != "gif"@) by { reveal_strlit("py"); reveal_strlit("gif"); assert(ext.len() != "gif"@.len()); }
        assert(ext != "mp3"@) by { reveal_strlit("py"); reveal_strlit("mp3"); assert(ext.len() != "mp3"@.len()); }
        assert(ext != "wav"@) by { reveal_strlit("py"); reveal_strlit("wav"); assert(ext.len() != "wav"@.len()); }
        assert(ext != "flac"@) by { reveal_strlit("py"); reveal_strlit("flac"); assert(ext.len() != "flac"@.len()); }
        assert(ext != "mp4"@) by { reveal_strlit("py"); reveal_strlit("mp4"); assert(ext.len() != "mp4"@.len()); }
        assert(ext != "mkv"@) by { reveal_strlit("py"); reveal_strlit("mkv"); assert(ext.len() != "mkv"@.len()); }
        assert(ext != "zip"@) by { reveal_strlit("py"); reveal_strlit("zip"); assert(ext.len() != "zip"@.len()); }
        assert(ext != "tar"@) by { reveal_strlit("py"); reveal_strlit("tar"); assert(ext.len() != "tar"@.len()); }
        assert(ext != "gz"@) by { reveal_strlit("py"); reveal_strlit("gz"); assert(ext[0] != "gz"@[0]); }
    }
    if ext == "sh"@ {
        assert(ext != "rs"@) by { reveal_strlit("sh"); reveal_strlit("rs"); assert(ext[0] != "rs"@[0]); }
        assert(ext != "toml"@) by { reveal_strlit("sh"); reveal_strlit("toml"); assert(ext.len() != "toml"@.len()); }
        assert(ext != "json"@) by { reveal_strlit("sh"); reveal_strlit("json"); assert(ext.len() != "json"@.len()); }
        assert(ext != "yaml"@) by { reveal_strlit("sh"); reveal_strlit("yaml"); assert(ext.len() != "yaml"@.len()); }
        assert(ext != "yml"@) by { reveal_strlit("sh"); reveal_strlit("yml"); assert(ext.len() != "yml"@.len()); }
        assert(ext != "png"@) by { reveal_strlit("sh"); reveal_strlit("png"); assert(ext.len() != "png"@.len()); }
        assert(ext != "jpg"@) by { reveal_strlit("sh"); reveal_strlit("jpg"); assert(ext.len() != "jpg"@.len()); }
        assert(ext != "jpeg"@) by { reveal_strlit("sh"); reveal_strlit("jpeg"); assert(ext.len() != "jpeg"@.len()); }
        assert(ext != "svg"@) by { reveal_strlit("sh"); reveal_strlit("svg"); assert(ext.len() != "svg"@.len()); }
        assert(ext != "gif"@) by { reveal_strlit("sh"); reveal_strlit("gif"); assert(ext.len() != "gif"@.len()); }
        assert(ext != "mp3"@) by { reveal_strlit("sh"); reveal_strlit("mp3"); assert(ext.len() != "mp3"@.len()); }
        assert(ext != "wav"@) by { reveal_strlit("sh"); reveal_strlit("wav"); assert(ext.len() != "wav"@.len()); }
        assert(ext != "flac"@) by { reveal_strlit("sh"); reveal_strlit("flac"); assert(ext.len() != "flac"@.len()); }
        assert(ext != "mp4"@) by { reveal_strlit("sh"); reveal_strlit("mp4"); assert(ext.len() != "mp4"@.len()); }
        assert(ext != "mkv"@) by { reveal_strlit("sh"); reveal_strlit("mkv"); assert(ext.len() != "mkv"@.len()); }
        assert(ext != "zip"@) by { reveal_strlit("sh"); reveal_strlit("zip"); assert(ext.len() != "zip"@.len()); }
        assert(ext != "tar"@) by { reveal_strlit("sh"); reveal_strlit("tar"); assert(ext.len() != "tar"@.len()); }
        assert(ext != "gz"@) by { reveal_strlit("sh"); reveal_strlit("gz"); assert(ext[0] != "gz"@[0]); }
        assert(ext != "py"@) by { reveal_strlit("sh"); reveal_strlit("py"); assert(ext[0] != "py"@[0]); }
    }
    if ext == "bash"@ {
        assert(ext != "rs"@) by { reveal_strlit("bash"); reveal_strlit("rs"); assert(ext.len() != "rs"@.len()); }
        assert(ext != "toml"@) by { reveal_strlit("bash"); reveal_strlit("toml"); assert(ext[0] != "toml"@[0]); }
        assert(ext != "json"@) by { reveal_strlit("bash"); reveal_strlit("json"); assert(ext[0] != "json"@[0]); }
        assert(ext != "yaml"@) by { reveal_strlit("bash"); reveal_strlit("yaml"); assert(ext[0] != "yaml"@[0]); }
        assert(ext != "yml"@) by { reveal_strlit("bash"); reveal_strlit("yml"); assert(ext.len() != "yml"@.len()); }
        assert(ext != "png"@) by { reveal_strlit("bash"); reveal_strlit("png"); assert(ext.len() != "png"@.len()); }
        assert(ext != "jpg"@) by { reveal_strlit("bash"); reveal_strlit("jpg"); assert(ext.len() != "jpg"@.len()); }
        assert(ext != "jpeg"@) by { reveal_strlit("bash"); reveal_strlit("jpeg"); assert(ext[0] != "jpeg"@[0]); }
        assert(ext != "svg"@) by { reveal_strlit("bash"); reveal_strlit("svg"); assert(ext.len() != "svg"@.len()); }
        assert(ext != "gif"@) by { reveal_strlit("bash"); reveal_strlit("gif"); assert(ext.len() != "gif"@.len()); }
        assert(ext != "mp3"@) by { reveal_strlit("bash"); reveal_strlit("mp3"); assert(ext.len() != "mp3"@.len()); }
        assert(ext != "wav"@) by { reveal_strlit("bash"); reveal_strlit("wav"); assert(ext.len() != "wav"@.len()); }
        assert(ext != "flac"@) by { reveal_strlit("bash"); reveal_strlit("flac"); assert(ext[0] != "flac"@[0]); }
        assert(ext != "mp4"@) by { reveal_strlit("bash"); reveal_strlit("mp4"); assert(ext.len() != "mp4"@.len()); }
        assert(ext != "mkv"@) by { reveal_strlit("bash"); reveal_strlit("mkv"); assert(ext.len() != "mkv"@.len()); }
        assert(ext != "zip"@) by { reveal_strlit("bash"); reveal_strlit("zip"); assert(ext.len() != "zip"@.len()); }
        assert(ext != "tar"@) by { reveal_strlit("bash"); reveal_strlit("tar"); assert(ext.len() != "tar"@.len()); }
        assert(ext != "gz"@) by { reveal_strlit("bash"); reveal_strlit("gz"); assert(ext.len() != "gz"@.len()); }
        assert(ext != "py"@) by { reveal_strlit("bash"); reveal_strlit("py"); assert(ext.len() != "py"@.len()); }
        assert(ext != "sh"@) by { reveal_strlit("bash"); reveal_strlit("sh"); assert(ext.len() != "sh"@.len()); }
    }
    if ext == "md"@ {
        assert(ext != "rs"@) by { reveal_strlit("md"); reveal_strlit("rs"); assert(ext[0] != "rs"@[0]); }
        assert(ext != "toml"@) by { reveal_strlit("md"); reveal_strlit("toml"); assert(ext.len() != "toml"@.len()); }
        assert(ext != "json"@) by { reveal_strlit("md"); reveal_strlit("json"); assert(ext.len() != "json"@.len()); }
        assert(ext != "yaml"@) by { reveal_strlit("md"); reveal_strlit("yaml"); assert(ext.len() != "yaml"@.len()); }
        assert(ext != "yml"@) by { reveal_strlit("md"); reveal_strlit("yml"); assert(ext.len() != "yml"@.len()); }
        assert(ext != "png"@) by { reveal_strlit("md"); reveal_strlit("png"); assert(ext.len() != "png"@.len()); }
        assert(ext != "jpg"@) by { reveal_strlit("md"); reveal_strlit("jpg"); assert(ext.len() != "jpg"@.len()); }
        assert(ext != "jpeg"@) by { reveal_strlit("md"); reveal_strlit("jpeg"); assert(ext.len() != "jpeg"@.len()); }
        assert(ext != "svg"@) by { reveal_strlit("md"); reveal_strlit("svg"); assert(ext.len() != "svg"@.len()); }
        assert(ext != "gif"@) by { reveal_strlit("md"); reveal_strlit("gif"); assert(ext.len() != "gif"@.len()); }
        assert(ext != "mp3"@) by { reveal_strlit("md"); reveal_strlit("mp3"); assert(ext.len() != "mp3"@.len()); }
        assert(ext != "wav"@) by { reveal_strlit("md"); reveal_strlit("wav"); assert(ext.len() != "wav"@.len()); }
        assert(ext != "flac"@) by { reveal_strlit("md"); reveal_strlit("flac"); assert(ext.len() != "flac"@.len()); }
        assert(ext != "mp4"@) by { reveal_strlit("md"); reveal_strlit("mp4"); assert(ext.len() != "mp4"@.len()); }
        assert(ext != "mkv"@) by { reveal_strlit("md"); reveal_strlit("mkv"); assert(ext.len() != "mkv"@.len()); }
        assert(ext != "zip"@) by { reveal_strlit("md"); reveal_strlit("zip"); assert(ext.len() != "zip"@.len()); }
        assert(ext != "tar"@) by { reveal_strlit("md"); reveal_strlit("tar"); assert(ext.len() != "tar"@.len()); }
        assert(ext != "gz"@) by { reveal_strlit("md"); reveal_strlit("gz"); assert(ext[0] != "gz"@[0]); }
        assert(ext != "py"@) by { reveal_strlit("md"); reveal_strlit("py"); assert(ext[0] != "py"@[0]); }
        assert(ext != "sh"@) by { reveal_strlit("md"); reveal_strlit("sh"); assert(ext[0] != "sh"@[0]); }
        assert(ext != "bash"@) by { reveal_strlit("md"); reveal_strlit("bash"); assert(ext.len() != "bash"@.len()); }
    }
    if ext == "txt"@ {
        assert(ext != "rs"@) by { reveal_strlit("txt"); reveal_strlit("rs"); assert(ext.len() != "rs"@.len()); }
        assert(ext != "toml"@) by { reveal_strlit("txt"); reveal_strlit("toml"); assert(ext.len() != "toml"@.len()); }
        assert(ext != "json"@) by { reveal_strlit("txt"); reveal_strlit("json"); assert(ext.len() != "json"@.len()); }
        assert(ext != "yaml"@) by { reveal_strlit("txt"); reveal_strlit("yaml"); assert(ext.len() != "yaml"@.len()); }
        assert(ext != "yml"@) by { reveal_strlit("txt"); reveal_strlit("yml"); assert(ext[0] != "yml"@[0]); }
        assert(ext != "png"@) by { reveal_strlit("txt"); reveal_strlit("png"); assert(ext[0] != "png"@[0]); }
        assert(ext != "jpg"@) by { reveal_strlit("txt"); reveal_strlit("jpg"); assert(ext[0] != "jpg"@[0]); }
        assert(ext != "jpeg"@) by { reveal_strlit("txt"); reveal_strlit("jpeg"); assert(ext.len() != "jpeg"@.len()); }
        assert(ext != "svg"@) by { reveal_strlit("txt"); reveal_strlit("svg"); assert(ext[0] != "svg"@[0]); }
        assert(ext != "gif"@) by { reveal_strlit("txt"); reveal_strlit("gif"); assert(ext[0] != "gif"@[0]); }
        assert(ext != "mp3"@) by { reveal_strlit("txt"); reveal_strlit("mp3"); assert(ext[0] != "mp3"@[0]); }
        assert(ext != "wav"@) by { reveal_strlit("txt"); reveal_strlit("wav"); assert(ext[0] != "wav"@[0]); }
        assert(ext != "flac"@) by { reveal_strlit("txt"); reveal_strlit("flac"); assert(ext.len() != "flac"@.len()); }
        assert(ext != "mp4"@) by { reveal_strlit("txt"); reveal_strlit("mp4"); assert(ext[0] != "mp4"@[0]); }
        assert(ext != "mkv"@) by { reveal_strlit("txt"); reveal_strlit("mkv"); assert(ext[0] != "mkv"@[0]); }
        assert(ext != "zip"@) by { reveal_strlit("txt"); reveal_strlit("zip"); assert(ext[0] != "zip"@[0]); }
        assert(ext != "tar"@) by { reveal_strlit("txt"); reveal_strlit("tar"); assert(ext[1] != "tar"@[1]); }
        assert(ext != "gz"@) by { reveal_strlit("txt"); reveal_strlit("gz"); assert(ext.len() != "gz"@.len()); }
        assert(ext != "py"@) by { reveal_strlit("txt"); reveal_strlit("py"); assert(ext.len() != "py"@.len()); }
        assert(ext != "sh"@) by { reveal_strlit("txt"); reveal_strlit("sh"); assert(ext.len() != "sh"@.len()); }
        assert(ext != "bash"@) by { reveal_strlit("txt"); reveal_strlit("bash"); assert(ext.len() != "bash"@.len()); }
        assert(ext != "md"@) by { reveal_strlit("txt"); reveal_strlit("md"); assert(ext.len() != "md"@.len()); }
    }
    if ext == "c"@ {
        assert(ext != "rs"@) by { reveal_strlit("c"); reveal_strlit("rs"); assert(ext.len() != "rs"@.len()); }
        assert(ext != "toml"@) by { reveal_strlit("c"); reveal_strlit("toml"); assert(ext.len() != "toml"@.len()); }
        assert(ext != "json"@) by { reveal_strlit("c"); reveal_strlit("json"); assert(ext.len() != "json"@.len()); }
        assert(ext != "yaml"@) by { reveal_strlit("c"); reveal_strlit("yaml"); assert(ext.len() != "yaml"@.len()); }
        assert(ext != "yml"@) by { reveal_strlit("c"); reveal_strlit("yml"); assert(ext.len() != "yml"@.len()); }
        assert(ext != "png"@) by { reveal_strlit("c"); reveal_strlit("png"); assert(ext.len() != "png"@.len()); }
        assert(ext != "jpg"@) by { reveal_strlit("c"); reveal_strlit("jpg"); assert(ext.len() != "jpg"@.len()); }
        assert(ext != "jpeg"@) by { reveal_strlit("c"); reveal_strlit("jpeg"); assert(ext.len() != "jpeg"@.len()); }
        assert(ext != "svg"@) by { reveal_strlit("c"); reveal_strlit("svg"); assert(ext.len() != "svg"@.len()); }
        assert(ext != "gif"@) by { reveal_strlit("c"); reveal_strlit("gif"); assert(ext.len() != "gif"@.len()); }
        assert(ext != "mp3"@) by { reveal_strlit("c"); reveal_strlit("mp3"); assert(ext.len() != "mp3"@.len()); }
        assert(ext != "wav"@) by { reveal_strlit("c"); reveal_strlit("wav"); assert(ext.len() != "wav"@.len()); }
        assert(ext != "flac"@) by { reveal_strlit("c"); reveal_strlit("flac"); assert(ext.len() != "flac"@.len()); }
        assert(ext != "mp4"@) by { reveal_strlit("c"); reveal_strlit("mp4"); assert(ext.len() != "mp4"@.len()); }
        assert(ext != "mkv"@) by { reveal_strlit("c"); reveal_strlit("mkv"); assert(ext.len() != "mkv"@.len()); }
        assert(ext != "zip"@) by { reveal_strlit("c"); reveal_strlit("zip"); assert(ext.len() != "zip"@.len()); }
        assert(ext != "tar"@) by { reveal_strlit("c"); reveal_strlit("tar"); assert(ext.len() != "tar"@.len()); }
        assert(ext != "gz"@) by { reveal_strlit("c"); reveal_strlit("gz"); assert(ext.len() != "gz"@.len()); }
        assert(ext != "py"@) by { reveal_strlit("c"); reveal_strlit("py"); assert(ext.len() != "py"@.len()); }
        assert(ext != "sh"@) by { reveal_strlit("c"); reveal_strlit("sh"); assert(ext.len() != "sh"@.len()); }
        assert(ext != "bash"@) by { reveal_strlit("c"); reveal_strlit("bash"); assert(ext.len() != "bash"@.len()); }
        assert(ext != "md"@) by { reveal_strlit("c"); reveal_strlit("md"); assert(ext.len() != "md"@.len()); }
        assert(ext != "txt"@) by { reveal_strlit("c"); reveal_strlit("txt"); assert(ext.len() != "txt"@.len()); }
    }
    if ext == "h"@ {
        assert(ext != "rs"@) by { reveal_strlit("h"); reveal_strlit("rs"); assert(ext.len() != "rs"@.len()); }
        assert(ext != "toml"@) by { reveal_strlit("h"); reveal_strlit("toml"); assert(ext.len() != "toml"@.len()); }
        assert(ext != "json"@) by { reveal_strlit("h"); reveal_strlit("json"); assert(ext.len() != "json"@.len()); }
        assert(ext != "yaml"@) by { reveal_strlit("h"); reveal_strlit("yaml"); assert(ext.len() != "yaml"@.len()); }
        assert(ext != "yml"@) by { reveal_strlit("h"); reveal_strlit("yml"); assert(ext.len() != "yml"@.len()); }
        assert(ext != "png"@) by { reveal_strlit("h"); reveal_strlit("png"); assert(ext.len() != "png"@.len()); }
        assert(ext != "jpg"@) by { reveal_strlit("h"); reveal_strlit("jpg"); assert(ext.len() != "jpg"@.len()); }
        assert(ext != "jpeg"@) by { reveal_strlit("h"); reveal_strlit("jpeg"); assert(ext.len() != "jpeg"@.len()); }
        assert(ext != "svg"@) by { reveal_strlit("h"); reveal_strlit("svg"); assert(ext.len() != "svg"@.len()); }
        assert(ext != "gif"@) by { reveal_strlit("h"); reveal_strlit("gif"); assert(ext.len() != "gif"@.len()); }
        assert(ext != "mp3"@) by { reveal_strlit("h"); reveal_strlit("mp3"); assert(ext.len() != "mp3"@.len()); }
        assert(ext != "wav"@) by { reveal_strlit("h"); reveal_strlit("wav"); assert(ext.len() != "wav"@.len()); }
        assert(ext != "flac"@) by { reveal_strlit("h"); reveal_strlit("flac"); assert(ext.len() != "flac"@.len()); }
        assert(ext != "mp4"@) by { reveal_strlit("h"); reveal_strlit("mp4"); assert(ext.len() != "mp4"@.len()); }
        assert(ext != "mkv"@) by { reveal_strlit("h"); reveal_strlit("mkv"); assert(ext.len() != "mkv"@.len()); }
        assert(ext != "zip"@) by { reveal_strlit("h"); reveal_strlit("zip"); assert(ext.len() != "zip"@.len()); }
        assert(ext != "tar"@) by { reveal_strlit("h"); reveal_strlit("tar"); assert(ext.len() != "tar"@.len()); }
        assert(ext != "gz"@) by { reveal_strlit("h"); reveal_strlit("gz"); assert(ext.len() != "gz"@.len()); }
        assert(ext != "py"@) by { reveal_strlit("h"); reveal_strlit("py"); assert(ext.len() != "py"@.len()); }
        assert(ext != "sh"@) by { reveal_strlit("h"); reveal_strlit("sh"); assert(ext.len() != "sh"@.len()); }
        assert(ext != "bash"@) by { reveal_strlit("h"); reveal_strlit("bash"); assert(ext.len() != "bash"@.len()); }
        assert(ext != "md"@) by { reveal_strlit("h"); reveal_strlit("md"); assert(ext.len() != "md"@.len()); }
        assert(ext != "txt"@) by { reveal_strlit("h"); reveal_strlit("txt"); assert(ext.len() != "txt"@.len()); }
        assert(ext != "c"@) by { reveal_strlit("h"); reveal_strlit("c"); assert(ext[0] != "c"@[0]); }
    }
    if ext == "cpp"@ {
        assert(ext != "rs"@) by { reveal_strlit("cpp"); reveal_strlit("rs"); assert(ext.len() != "rs"@.len()); }
        assert(ext != "toml"@) by { reveal_strlit("cpp"); reveal_strlit("toml"); assert(ext.len() != "toml"@.len()); }
        assert(ext != "json"@) by { reveal_strlit("cpp"); reveal_strlit("json"); assert(ext.len() != "json"@.len()); }
        assert(ext != "yaml"@) by { reveal_strlit("cpp"); reveal_strlit("yaml"); assert(ext.len() != "yaml"@.len()); }
        assert(ext != "yml"@) by { reveal_strlit("cpp"); reveal_strlit("yml"); assert(ext[0] != "yml"@[0]); }
        assert(ext != "png"@) by { reveal_strlit("cpp"); reveal_strlit("png"); assert(ext[0] != "png"@[0]); }
        assert(ext != "jpg"@) by { reveal_strlit("cpp"); reveal_strlit("jpg"); assert(ext[0] != "jpg"@[0]); }
        assert(ext != "jpeg"@) by { reveal_strlit("cpp"); reveal_strlit("jpeg"); assert(ext.len() != "jpeg"@.len()); }
        assert(ext != "svg"@) by { reveal_strlit("cpp"); reveal_strlit("svg"); assert(ext[0] != "svg"@[0]); }
        assert(ext != "gif"@) by { reveal_strlit("cpp"); reveal_strlit("gif"); assert(ext[0] != "gif"@[0]); }
        assert(ext != "mp3"@) by { reveal_strlit("cpp"); reveal_strlit("mp3"); assert(ext[0] != "mp3"@[0]); }
        assert(ext != "wav"@) by { reveal_strlit("cpp"); reveal_strlit("wav"); assert(ext[0] != "wav"@[0]); }
        assert(ext != "flac"@) by { reveal_strlit("cpp"); reveal_strlit("flac"); assert(ext.len() != "flac"@.len()); }
        assert(ext != "mp4"@) by { reveal_strlit("cpp"); reveal_strlit("mp4"); assert(ext[0] != "mp4"@[0]); }
        assert(ext != "mkv"@) by { reveal_strlit("cpp"); reveal_strlit("mkv"); assert(ext[0] != "mkv"@[0]); }
        assert(ext != "zip"@) by { reveal_strlit("cpp"); reveal_strlit("zip"); assert(ext[0] != "zip"@[0]); }
        assert(ext != "tar"@) by { reveal_strlit("cpp"); reveal_strlit("tar"); assert(ext[0] != "tar"@[0]); }
        assert(ext != "gz"@) by { reveal_strlit("cpp"); reveal_strlit("gz"); assert(ext.len() != "gz"@.len()); }
        assert(ext != "py"@) by { reveal_strlit("cpp"); reveal_strlit("py"); assert(ext.len() != "py"@.len()); }
        assert(ext != "sh"@) by { reveal_strlit("cpp"); reveal_strlit("sh"); assert(ext.len() != "sh"@.len()); }
        assert(ext != "bash"@) by { reveal_strlit("cpp"); reveal_strlit("bash"); assert(ext.len() != "bash"@.len()); }
        assert(ext != "md"@) by { reveal_strlit("cpp"); reveal_strlit("md"); assert(ext.len() != "md"@.len()); }
        assert(ext != "txt"@) by { reveal_strlit("cpp"); reveal_strlit("txt"); assert(ext[0] != "txt"@[0]); }
        assert(ext != "c"@) by { reveal_strlit("cpp"); reveal_strlit("c"); assert(ext.len() != "c"@.len()); }
        assert(ext != "h"@) by { reveal_strlit("cpp"); reveal_strlit("h"); assert(ext.len() != "h"@.len()); }
    }
    if ext == "hpp"@ {
        assert(ext != "rs"@) by { reveal_strlit("hpp"); reveal_strlit("rs"); assert(ext.len() != "rs"@.len()); }
        assert(ext != "toml"@) by { reveal_strlit("hpp"); reveal_strlit("toml"); assert(ext.len() != "toml"@.len()); }
        assert(ext != "json"@) by { reveal_strlit("hpp"); reveal_strlit("json"); assert(ext.len() != "json"@.len()); }
        assert(ext != "yaml"@) by { reveal_strlit("hpp"); reveal_strlit("yaml"); assert(ext.len() != "yaml"@.len()); }
        assert(ext != "yml"@) by { reveal_strlit("hpp"); reveal_strlit("yml"); assert(ext[0] != "yml"@[0]); }
        assert(ext != "png"@) by { reveal_strlit("hpp"); reveal_strlit("png"); assert(ext[0] != "png"@[0]); }
        assert(ext != "jpg"@) by { reveal_strlit("hpp"); reveal_strlit("jpg"); assert(ext[0] != "jpg"@[0]); }
        assert(ext != "jpeg"@) by { reveal_strlit("hpp"); reveal_strlit("jpeg"); assert(ext.len() != "jpeg"@.len()); }
        assert(ext != "svg"@) by { reveal_strlit("hpp"); reveal_strlit("svg"); assert(ext[0] != "svg"@[0]); }
        assert(ext != "gif"@) by { reveal_strlit("hpp"); reveal_strlit("gif"); assert(ext[0] != "gif"@[0]); }
        assert(ext != "mp3"@) by { reveal_strlit("hpp"); reveal_strlit("mp3"); assert(ext[0] != "mp3"@[0]); }
        assert(ext != "wav"@) by { reveal_strlit("hpp"); reveal_strlit("wav"); assert(ext[0] != "wav"@[0]); }
        assert(ext != "flac"@) by { reveal_strlit("hpp"); reveal_strlit("flac"); assert(ext.len() != "flac"@.len()); }
        assert(ext != "mp4"@) by { reveal_strlit("hpp"); reveal_strlit("mp4"); assert(ext[0] != "mp4"@[0]); }
        assert(ext != "mkv"@) by { reveal_strlit("hpp"); reveal_strlit("mkv"); assert(ext[0] != "mkv"@[0]); }
        assert(ext != "zip"@) by { reveal_strlit("hpp"); reveal_strlit("zip"); assert(ext[0] != "zip"@[0]); }
        assert(ext != "tar"@) by { reveal_strlit("hpp"); reveal_strlit("tar"); assert(ext[0] != "tar"@[0]); }
        assert(ext != "gz"@) by { reveal_strlit("hpp"); reveal_strlit("gz"); assert(ext.len() != "gz"@.len()); }
        assert(ext != "py"@) by { reveal_strlit("hpp"); reveal_strlit("py"); assert(ext.len() != "py"@.len()); }
        assert(ext != "sh"@) by { reveal_strlit("hpp"); reveal_strlit("sh"); assert(ext.len() != "sh"@.len()); }
        assert(ext != "bash"@) by { reveal_strlit("hpp"); reveal_strlit("bash"); assert(ext.len() != "bash"@.len()); }
        assert(ext != "md"@) by { reveal_strlit("hpp"); reveal_strlit("md"); assert(ext.len() != "md"@.len()); }
        assert(ext != "txt"@) by { reveal_strlit("hpp"); reveal_strlit("txt"); assert(ext[0] != "txt"@[0]); }
        assert(ext != "c"@) by { reveal_strlit("hpp"); reveal_strlit("c"); assert(ext.len() != "c"@.len()); }
        assert(ext != "h"@) by { reveal_strlit("hpp"); reveal_strlit("h"); assert(ext.len() != "h"@.len()); }
        assert(ext != "cpp"@) by { reveal_strlit("hpp"); reveal_strlit("cpp"); assert(ext[0] != "cpp"@[0]); }
    }
    if ext == "cc"@ {
        assert(ext != "rs"@) by { reveal_strlit("cc"); reveal_strlit("rs"); assert(ext[0] != "rs"@[0]); }
        assert(ext != "toml"@) by { reveal_strlit("cc"); reveal_strlit("toml"); assert(ext.len() != "toml"@.len()); }
        assert(ext != "json"@) by { reveal_strlit("cc"); reveal_strlit("json"); assert(ext.len() != "json"@.len()); }
        assert(ext != "yaml"@) by { reveal_strlit("cc"); reveal_strlit("yaml"); assert(ext.len() != "yaml"@.len()); }
        assert(ext != "yml"@) by { reveal_strlit("cc"); reveal_strlit("yml"); assert(ext.len() != "yml"@.len()); }
        assert(ext != "png"@) by { reveal_strlit("cc"); reveal_strlit("png"); assert(ext.len() != "png"@.len()); }
        assert(ext != "jpg"@) by { reveal_strlit("cc"); reveal_strlit("jpg"); assert(ext.len() != "jpg"@.len()); }
        assert(ext != "jpeg"@) by { reveal_strlit("cc"); reveal_strlit("jpeg"); assert(ext.len() != "jpeg"@.len()); }
        assert(ext != "svg"@) by { reveal_strlit("cc"); reveal_strlit("svg"); assert(ext.len() != "svg"@.len()); }
        assert(ext != "gif"@) by { reveal_strlit("cc"); reveal_strlit("gif"); assert(ext.len() != "gif"@.len()); }
        assert(ext != "mp3"@) by { reveal_strlit("cc"); reveal_strlit("mp3"); assert(ext.len() != "mp3"@.len()); }
        assert(ext != "wav"@) by { reveal_strlit("cc"); reveal_strlit("wav"); assert(ext.len() != "wav"@.len()); }
        assert(ext != "flac"@) by { reveal_strlit("cc"); reveal_strlit("flac"); assert(ext.len() != "flac"@.len()); }
        assert(ext != "mp4"@) by { reveal_strlit("cc"); reveal_strlit("mp4"); assert(ext.len() != "mp4"@.len()); }
        assert(ext != "mkv"@) by { reveal_strlit("cc"); reveal_strlit("mkv"); assert(ext.len() != "mkv"@.len()); }
        assert(ext != "zip"@) by { reveal_strlit("cc"); reveal_strlit("zip"); assert(ext.len() != "zip"@.len()); }
        assert(ext != "tar"@) by { reveal_strlit("cc"); reveal_strlit("tar"); assert(ext.len() != "tar"@.len()); }
        assert(ext != "gz"@) by { reveal_strlit("cc"); reveal_strlit("gz"); assert(ext[0] != "gz"@[0]); }
        assert(ext != "py"@) by { reveal_strlit("cc"); reveal_strlit("py"); assert(ext[0] != "py"@[0]); }
        assert(ext != "sh"@) by { reveal_strlit("cc"); reveal_strlit("sh"); assert(ext[0] != "sh"@[0]); }
        assert(ext != "bash"@) by { reveal_strlit("cc"); reveal_strlit("bash"); assert(ext.len() != "bash"@.len()); }
        assert(ext != "md"@) by { reveal_strlit("cc"); reveal_strlit("md"); assert(ext[0] != "md"@[0]); }
        assert(ext != "txt"@) by { reveal_strlit("cc"); reveal_strlit("txt"); assert(ext.len() != "txt"@.len()); }
        assert(ext != "c"@) by { reveal_strlit("cc"); reveal_strlit("c"); assert(ext.len() != "c"@.len()); }
        assert(ext != "h"@) by { reveal_strlit("cc"); reveal_strlit("h"); assert(ext.len() != "h"@.len()); }
        assert(ext != "cpp"@) by { reveal_strlit("cc"); reveal_strlit("cpp"); assert(ext.len() != "cpp"@.len()); }
        assert(ext != "hpp"@) by { reveal_strlit("cc"); reveal_strlit("hpp"); assert(ext.len() != "hpp"@.len()); }
    }
    if ext == "hs"@ {
        assert(ext != "rs"@) by { reveal_strlit("hs"); reveal_strlit("rs"); assert(ext[0] != "rs"@[0]); }
        assert(ext != "toml"@) by { reveal_strlit("hs"); reveal_strlit("toml"); assert(ext.len() != "toml"@.len()); }
        assert(ext != "json"@) by { reveal_strlit("hs"); reveal_strlit("json"); assert(ext.len() != "json"@.len()); }
        assert(ext != "yaml"@) by { reveal_strlit("hs"); reveal_strlit("yaml"); assert(ext.len() != "yaml"@.len()); }
        assert(ext != "yml"@) by { reveal_strlit("hs"); reveal_strlit("yml"); assert(ext.len() != "yml"@.len()); }
        assert(ext != "png"@) by { reveal_strlit("hs"); reveal_strlit("png"); assert(ext.len() != "png"@.len()); }
        assert(ext != "jpg"@) by { reveal_strlit("hs"); reveal_strlit("jpg"); assert(ext.len() != "jpg"@.len()); }
        assert(ext != "jpeg"@) by { reveal_strlit("hs"); reveal_strlit("jpeg"); assert(ext.len() != "jpeg"@.len()); }
        assert(ext != "svg"@) by { reveal_strlit("hs"); reveal_strlit("svg"); assert(ext.len() != "svg"@.len()); }
        assert(ext != "gif"@) by { reveal_strlit("hs"); reveal_strlit("gif"); assert(ext.len() != "gif"@.len()); }
        assert(ext != "mp3"@) by { reveal_strlit("hs"); reveal_strlit("mp3"); assert(ext.len() != "mp3"@.len()); }
        assert(ext != "wav"@) by { reveal_strlit("hs"); reveal_strlit("wav"); assert(ext.len() != "wav"@.len()); }
        assert(ext != "flac"@) by { reveal_strlit("hs"); reveal_strlit("flac"); assert(ext.len() != "flac"@.len()); }
        assert(ext != "mp4"@) by { reveal_strlit("hs"); reveal_strlit("mp4"); assert(ext.len() != "mp4"@.len()); }
        assert(ext != "mkv"@) by { reveal_strlit("hs"); reveal_strlit("mkv"); assert(ext.len() != "mkv"@.len()); }
        assert(ext != "zip"@) by { reveal_strlit("hs"); reveal_strlit("zip"); assert(ext.len() != "zip"@.len()); }
        assert(ext != "tar"@) by { reveal_strlit("hs"); reveal_strlit("tar"); assert(ext.len() != "tar"@.len()); }
        assert(ext != "gz"@) by { reveal_strlit("hs"); reveal_strlit("gz"); assert(ext[0] != "gz"@[0]); }
        assert(ext != "py"@) by { reveal_strlit("hs"); reveal_strlit("py"); assert(ext[0] != "py"@[0]); }
        assert(ext != "sh"@) by { reveal_strlit("hs"); reveal_strlit("sh"); assert(ext[0] != "sh"@[0]); }
        assert(ext != "bash"@) by { reveal_strlit("hs"); reveal_strlit("bash"); assert(ext.len() != "bash"@.len()); }
        assert(ext != "md"@) by { reveal_strlit("hs"); reveal_strlit("md"); assert(ext[0] != "md"@[0]); }
        assert(ext != "txt"@) by { reveal_strlit("hs"); reveal_strlit("txt"); assert(ext.len() != "txt"@.len()); }
        assert(ext != "c"@) by { reveal_strlit("hs"); reveal_strlit("c"); assert(ext.len() != "c"@.len()); }
        assert(ext != "h"@) by { reveal_strlit("hs"); reveal_strlit("h"); assert(ext.len() != "h"@.len()); }
        assert(ext != "cpp"@) by { reveal_strlit("hs"); reveal_strlit("cpp"); assert(ext.len() != "cpp"@.len()); }
        assert(ext != "hpp"@) by { reveal_strlit("hs"); reveal_strlit("hpp"); assert(ext.len() != "hpp"@.len()); }
        assert(ext != "cc"@) by { reveal_strlit("hs"); reveal_strlit("cc"); assert(ext[0] != "cc"@[0]); }
    }
    if ext == "exe"@ {
        assert(ext != "rs"@) by { reveal_strlit("exe"); reveal_strlit("rs"); assert(ext.len() != "rs"@.len()); }
        assert(ext != "toml"@) by { reveal_strlit("exe"); reveal_strlit("toml"); assert(ext.len() != "toml"@.len()); }
        assert(ext != "json"@) by { reveal_strlit("exe"); reveal_strlit("json"); assert(ext.len() != "json"@.len()); }
        assert(ext != "yaml"@) by { reveal_strlit("exe"); reveal_strlit("yaml"); assert(ext.len() != "yaml"@.len()); }
        assert(ext != "yml"@) by { reveal_strlit("exe"); reveal_strlit("yml"); assert(ext[0] != "yml"@[0]); }
        assert(ext != "png"@) by { reveal_strlit("exe"); reveal_strlit("png"); assert(ext[0] != "png"@[0]); }
        assert(ext != "jpg"@) by { reveal_strlit("exe"); reveal_strlit("jpg"); assert(ext[0] != "jpg"@[0]); }
        assert(ext != "jpeg"@) by { reveal_strlit("exe"); reveal_strlit("jpeg"); assert(ext.len() != "jpeg"@.len()); }
        assert(ext != "svg"@) by { reveal_strlit("exe"); reveal_strlit("svg"); assert(ext[0] != "svg"@[0]); }
        assert(ext != "gif"@) by { reveal_strlit("exe"); reveal_strlit("gif"); assert(ext[0] != "gif"@[0]); }
        assert(ext != "mp3"@) by { reveal_strlit("exe"); reveal_strlit("mp3"); assert(ext[0] != "mp3"@[0]); }
        assert(ext != "wav"@) by { reveal_strlit("exe"); reveal_strlit("wav"); assert(ext[0] != "wav"@[0]); }
        assert(ext != "flac"@) by { reveal_strlit("exe"); reveal_strlit("flac"); assert(ext.len() != "flac"@.len()); }
        assert(ext != "mp4"@) by { reveal_strlit("exe"); reveal_strlit("mp4"); assert(ext[0] != "mp4"@[0]); }
        assert(ext != "mkv"@) by { reveal_strlit("exe"); reveal_strlit("mkv"); assert(ext[0] != "mkv"@[0]); }
        assert(ext != "zip"@) by { reveal_strlit("exe"); reveal_strlit("zip"); assert(ext[0] != "zip"@[0]); }
        assert(ext != "tar"@) by { reveal_strlit("exe"); reveal_strlit("tar"); assert(ext[0] != "tar"@[0]); }
        assert(ext != "gz"@) by { reveal_strlit("exe"); reveal_strlit("gz"); assert(ext.len() != "gz"@.len()); }
        assert(ext != "py"@) by { reveal_strlit("exe"); reveal_strlit("py"); assert(ext.len() != "py"@.len()); }
        assert(ext != "sh"@) by { reveal_strlit("exe"); reveal_strlit("sh"); assert(ext.len() != "sh"@.len()); }
        assert(ext != "bash"@) by { reveal_strlit("exe"); reveal_strlit("bash"); assert(ext.len() != "bash"@.len()); }
        assert(ext != "md"@) by { reveal_strlit("exe"); reveal_strlit("md"); assert(ext.len() != "md"@.len()); }
        assert(ext != "txt"@) by { reveal_strlit("exe"); reveal_strlit("txt"); assert(ext[0] != "txt"@[0]); }
        assert(ext != "c"@) by { reveal_strlit("exe"); reveal_strlit("c"); assert(ext.len() != "c"@.len()); }
        assert(ext != "h"@) by { reveal_strlit("exe"); reveal_strlit("h"); assert(ext.len() != "h"@.len()); }
        assert(ext != "cpp"@) by { reveal_strlit("exe"); reveal_strlit("cpp"); assert(ext[0] != "cpp"@[0]); }
        assert(ext != "hpp"@) by { reveal_strlit("exe"); reveal_strlit("hpp"); assert(ext[0] != "hpp"@[0]); }
        assert(ext != "cc"@) by { reveal_strlit("exe"); reveal_strlit("cc"); assert(ext.len() != "cc"@.len()); }
        assert(ext != "hs"@) by { reveal_strlit("exe"); reveal_strlit("hs"); assert(ext.len() != "hs"@.len()); }
    }
    if ext == "pdf"@ {
        assert(ext != "rs"@) by { reveal_strlit("pdf"); reveal_strlit("rs"); assert(ext.len() != "rs"@.len()); }
        assert(ext != "toml"@) by { reveal_strlit("pdf"); reveal_strlit("toml"); assert(ext.len() != "toml"@.len()); }
        assert(ext != "json"@) by { reveal_strlit("pdf"); reveal_strlit("json"); assert(ext.len() != "json"@.len()); }
        assert(ext != "yaml"@) by { reveal_strlit("pdf"); reveal_strlit("yaml"); assert(ext.len() != "yaml"@.len()); }
        assert(ext != "yml"@) by { reveal_strlit("pdf"); reveal_strlit("yml"); assert(ext[0] != "yml"@[0]); }
        assert(ext != "png"@) by { reveal_strlit("pdf"); reveal_strlit("png"); assert(ext[1] != "png"@[1]); }
        assert(ext != "jpg"@) by { reveal_strlit("pdf"); reveal_strlit("jpg"); assert(ext[0] != "jpg"@[0]); }
        assert(ext != "jpeg"@) by { reveal_strlit("pdf"); reveal_strlit("jpeg"); assert(ext.len() != "jpeg"@.len()); }
        assert(ext != "svg"@) by { reveal_strlit("pdf"); reveal_strlit("svg"); assert(ext[0] != "svg"@[0]); }
        assert(ext != "gif"@) by { reveal_strlit("pdf"); reveal_strlit("gif"); assert(ext[0] != "gif"@[0]); }
        assert(ext != "mp3"@) by { reveal_strlit("pdf"); reveal_strlit("mp3"); assert(ext[0] != "mp3"@[0]); }
        assert(ext != "wav"@) by { reveal_strlit("pdf"); reveal_strlit("wav"); assert(ext[0] != "wav"@[0]); }
        assert(ext != "flac"@) by { reveal_strlit("pdf"); reveal_strlit("flac"); assert(ext.len() != "flac"@.len()); }
        assert(ext != "mp4"@) by { reveal_strlit("pdf"); reveal_strlit("mp4"); assert(ext[0] != "mp4"@[0]); }
        assert(ext != "mkv"@) by { reveal_strlit("pdf"); reveal_strlit("mkv"); assert(ext[0] != "mkv"@[0]); }
        assert(ext != "zip"@) by { reveal_strlit("pdf"); reveal_strlit("zip"); assert(ext[0] != "zip"@[0]); }
        assert(ext != "tar"@) by { reveal_strlit("pdf"); reveal_strlit("tar"); assert(ext[0] != "tar"@[0]); }
        assert(ext != "gz"@) by { reveal_strlit("pdf"); reveal_strlit("gz"); assert(ext.len() != "gz"@.len()); }
        assert(ext != "py"@) by { reveal_strlit("pdf"); reveal_strlit("py"); assert(ext.len() != "py"@.len()); }
        assert(ext != "sh"@) by { reveal_strlit("pdf"); reveal_strlit("sh"); assert(ext.len() != "sh"@.len()); }
        assert(ext != "bash"@) by { reveal_strlit("pdf"); reveal_strlit("bash"); assert(ext.len() != "bash"@.len()); }
        assert(ext != "md"@) by { reveal_strlit("pdf"); reveal_strlit("md"); assert(ext.len() != "md"@.len()); }
        assert(ext != "txt"@) by { reveal_strlit("pdf"); reveal_strlit("txt"); assert(ext[0] != "txt"@[0]); }
        assert(ext != "c"@) by { reveal_strlit("pdf"); reveal_strlit("c"); assert(ext.len() != "c"@.len()); }
        assert(ext != "h"@) by { reveal_strlit("pdf"); reveal_strlit("h"); assert(ext.len() != "h"@.len()); }
        assert(ext != "cpp"@) by { reveal_strlit("pdf"); reveal_strlit("cpp"); assert(ext[0] != "cpp"@[0]); }
        assert(ext != "hpp"@) by { reveal_strlit("pdf"); reveal_strlit("hpp"); assert(ext[0] != "hpp"@[0]); }
        assert(ext != "cc"@) by { reveal_strlit("pdf"); reveal_strlit("cc"); assert(ext.len() != "cc"@.len()); }
        assert(ext != "hs"@) by { reveal_strlit("pdf"); reveal_strlit("hs"); assert(ext.len() != "hs"@.len()); }
        assert(ext != "exe"@) by { reveal_strlit("pdf"); reveal_strlit("exe"); assert(ext[0] != "exe"@[0]); }
    }
    if !one_of(ext, seq!["rs", "toml", "json", "yaml", "yml", "png", "jpg", "jpeg", "svg", "gif", "mp3", "wav", "flac", "mp4", "mkv", "zip", "tar", "gz", "py", "sh", "bash", "md", "txt", "c", "h", "cpp", "hpp", "cc", "hs", "exe", "pdf"]) {
        assert(ext != "rs"@) by { if ext == "rs"@ { assert(seq!["rs", "toml", "json", "yaml", "yml", "png", "jpg", "jpeg", "svg", "gif", "mp3", "wav", "flac", "mp4", "mkv", "zip", "tar", "gz", "py", "sh", "bash", "md", "txt", "c", "h", "cpp", "hpp", "cc", "hs", "exe", "pdf"][0]@ == ext); } }
        assert(ext != "toml"@) by { if ext == "toml"@ { assert(seq!["rs", "toml", "json", "yaml", "yml", "png", "jpg", "jpeg", "svg", "gif", "mp3", "wav", "flac", "mp4", "mkv", "zip", "tar", "gz", "py", "sh", "bash", "md", "txt", "c", "h", "cpp", "hpp", "cc", "hs", "exe", "pdf"][1]@ == ext); } }
        assert(ext != "json"@) by { if ext == "json"@ { assert(seq!["rs", "toml", "json", "yaml", "yml", "png", "jpg", "jpeg", "svg", "gif", "mp3", "wav", "flac", "mp4", "mkv", "zip", "tar", "gz", "py", "sh", "bash", "md", "txt", "c", "h", "cpp", "hpp", "cc", "hs", "exe", "pdf"][2]@ == ext); } }
        assert(ext != "yaml"@) by { if ext == "yaml"@ { assert(seq!["rs", "toml", "json", "yaml", "yml", "png", "jpg", "jpeg", "svg", "gif", "mp3", "wav", "flac", "mp4", "mkv", "zip", "tar", "gz", "py", "sh", "bash", "md", "txt", "c", "h", "cpp", "hpp", "cc", "hs", "exe", "pdf"][3]@ == ext); } }
        assert(ext != "yml"@) by { if ext == "yml"@ { assert(seq!["rs", "toml", "json", "yaml", "yml", "png", "jpg", "jpeg", "svg", "gif", "mp3", "wav", "flac", "mp4", "mkv", "zip", "tar", "gz", "py", "sh", "bash", "md", "txt", "c", "h", "cpp", "hpp", "cc", "hs", "exe", "pdf"][4]@ == ext); } }
        assert(ext != "png"@) by { if ext == "png"@ { assert(seq!["rs", "toml", "json", "yaml", "yml", "png", "jpg", "jpeg", "svg", "gif", "mp3", "wav", "flac", "mp4", "mkv", "zip", "tar", "gz", "py", "sh", "bash", "md", "txt", "c", "h", "cpp", "hpp", "cc", "hs", "exe", "pdf"][5]@ == ext); } }
        assert(ext != "jpg"@) by { if ext == "jpg"@ { assert(seq!["rs", "toml", "json", "yaml", "yml", "png", "jpg", "jpeg", "svg", "gif", "mp3", "wav", "flac", "mp4", "mkv", "zip", "tar", "gz", "py", "sh", "bash", "md", "txt", "c", "h", "cpp", "hpp", "cc", "hs", "exe", "pdf"][6]@ == ext); } }
        assert(ext != "jpeg"@) by { if ext == "jpeg"@ { assert(seq!["rs", "toml", "json", "yaml", "yml", "png", "jpg", "jpeg", "svg", "gif", "mp3", "wav", "flac", "mp4", "mkv", "zip", "tar", "gz", "py", "sh", "bash", "md", "txt", "c", "h", "cpp", "hpp", "cc", "hs", "exe", "pdf"][7]@ == ext); } }
        assert(ext != "svg"@) by { if ext == "svg"@ { assert(seq!["rs", "toml", "json", "yaml", "yml", "png", "jpg", "jpeg", "svg", "gif", "mp3", "wav", "flac", "mp4", "mkv", "zip", "tar", "gz", "py", "sh", "bash", "md", "txt", "c", "h", "cpp", "hpp", "cc", "hs", "exe", "pdf"][8]@ == ext); } }
        assert(ext != "gif"@) by { if ext == "gif"@ { assert(seq!["rs", "toml", "json", "yaml", "yml", "png", "jpg", "jpeg", "svg", "gif", "mp3", "wav", "flac", "mp4", "mkv", "zip", "tar", "gz", "py", "sh", "bash", "md", "txt", "c", "h", "cpp", "hpp", "cc", "hs", "exe", "pdf"][9]@ == ext); } }
        assert(ext != "mp3"@) by { if ext == "mp3"@ { assert(seq!["rs", "toml", "json", "yaml", "yml", "png", "jpg", "jpeg", "svg", "gif", "mp3", "wav", "flac", "mp4", "mkv", "zip", "tar", "gz", "py", "sh", "bash", "md", "txt", "c", "h", "cpp", "hpp", "cc", "hs", "exe", "pdf"][10]@ == ext); } }
        assert(ext != "wav"@) by { if ext == "wav"@ { assert(seq!["rs", "toml", "json", "yaml", "yml", "png", "jpg", "jpeg", "svg", "gif", "mp3", "wav", "flac", "mp4", "mkv", "zip", "tar", "gz", "py", "sh", "bash", "md", "txt", "c", "h", "cpp", "hpp", "cc", "hs", "exe", "pdf"][11]@ == ext); } }
        assert(ext != "flac"@) by { if ext == "flac"@ { assert(seq!["rs", "toml", "json", "yaml", "yml", "png", "jpg", "jpeg", "svg", "gif", "mp3", "wav", "flac", "mp4", "mkv", "zip", "tar", "gz", "py", "sh", "bash", "md", "txt", "c", "h", "cpp", "hpp", "cc", "hs", "exe", "pdf"][12]@ == ext); } }
        assert(ext != "mp4"@) by { if ext == "mp4"@ { assert(seq!["rs", "toml", "json", "yaml", "yml", "png", "jpg", "jpeg", "svg", "gif", "mp3", "wav", "flac", "mp4", "mkv", "zip", "tar", "gz", "py", "sh", "bash", "md", "txt", "c", "h", "cpp", "hpp", "cc", "hs", "exe", "pdf"][13]@ == ext); } }
        assert(ext != "mkv"@) by { if ext == "mkv"@ { assert(seq!["rs", "toml", "json", "yaml", "yml", "png", "jpg", "jpeg", "svg", "gif", "mp3", "wav", "flac", "mp4", "mkv", "zip", "tar", "gz", "py", "sh", "bash", "md", "txt", "c", "h", "cpp", "hpp", "cc", "hs", "exe", "pdf"][14]@ == ext); } }
        assert(ext != "zip"@) by { if ext == "zip"@ { assert(seq!["rs", "toml", "json", "yaml", "yml", "png", "jpg", "jpeg", "svg", "gif", "mp3", "wav", "flac", "mp4", "mkv", "zip", "tar", "gz", "py", "sh", "bash", "md", "txt", "c", "h", "cpp", "hpp", "cc", "hs", "exe", "pdf"][15]@ == ext); } }
        assert(ext != "tar"@) by { if ext == "tar"@ { assert(seq!["rs", "toml", "json", "yaml", "yml", "png", "jpg", "jpeg", "svg", "gif", "mp3", "wav", "flac", "mp4", "mkv", "zip", "tar", "gz", "py", "sh", "bash", "md", "txt", "c", "h", "cpp", "hpp", "cc", "hs", "exe", "pdf"][16]@ == ext); } }
        assert(ext != "gz"@) by { if ext == "gz"@ { assert(seq!["rs", "toml", "json", "yaml", "yml", "png", "jpg", "jpeg", "svg", "gif", "mp3", "wav", "flac", "mp4", "mkv", "zip", "tar", "gz", "py", "sh", "bash", "md", "txt", "c", "h", "cpp", "hpp", "cc", "hs", "exe", "pdf"][17]@ == ext); } }
        assert(ext != "py"@) by { if ext == "py"@ { assert(seq!["rs", "toml", "json", "yaml", "yml", "png", "jpg", "jpeg", "svg", "gif", "mp3", "wav", "flac", "mp4", "mkv", "zip", "tar", "gz", "py", "sh", "bash", "md", "txt", "c", "h", "cpp", "hpp", "cc", "hs", "exe", "pdf"][18]@ == ext); } }
        assert(ext != "sh"@) by { if ext == "sh"@ { assert(seq!["rs", "toml", "json", "yaml", "yml", "png", "jpg", "jpeg", "svg", "gif", "mp3", "wav", "flac", "mp4", "mkv", "zip", "tar", "gz", "py", "sh", "bash", "md", "txt", "c", "h", "cpp", "hpp", "cc", "hs", "exe", "pdf"][19]@ == ext); } }
        assert(ext != "bash"@) by { if ext == "bash"@ { assert(seq!["rs", "toml", "json", "yaml", "yml", "png", "jpg", "jpeg", "svg", "gif", "mp3", "wav", "flac", "mp4", "mkv", "zip", "tar", "gz", "py", "sh", "bash", "md", "txt", "c", "h", "cpp", "hpp", "cc", "hs", "exe", "pdf"][20]@ == ext); } }
        assert(ext != "md"@) by { if ext == "md"@ { assert(seq!["rs", "toml", "json", "yaml", "yml", "png", "jpg", "jpeg", "svg", "gif", "mp3", "wav", "flac", "mp4", "mkv", "zip", "tar", "gz", "py", "sh", "bash", "md", "txt", "c", "h", "cpp", "hpp", "cc", "hs", "exe", "pdf"][21]@ == ext); } }
        assert(ext != "txt"@) by { if ext == "txt"@ { assert(seq!["rs", "toml", "json", "yaml", "yml", "png", "jpg", "jpeg", "svg", "gif", "mp3", "wav", "flac", "mp4", "mkv", "zip", "tar", "gz", "py", "sh", "bash", "md", "txt", "c", "h", "cpp", "hpp", "cc", "hs", "exe", "pdf"][22]@ == ext); } }
        assert(ext != "c"@) by { if ext == "c"@ { assert(seq!["rs", "toml", "json", "yaml", "yml", "png", "jpg", "jpeg", "svg", "gif", "mp3", "wav", "flac", "mp4", "mkv", "zip", "tar", "gz", "py", "sh", "bash", "md", "txt", "c", "h", "cpp", "hpp", "cc", "hs", "exe", "pdf"][23]@ == ext); } }
        assert(ext != "h"@) by { if ext == "h"@ { assert(seq!["rs", "toml", "json", "yaml", "yml", "png", "jpg", "jpeg", "svg", "gif", "mp3", "wav", "flac", "mp4", "mkv", "zip", "tar", "gz", "py", "sh", "bash", "md", "txt", "c", "h", "cpp", "hpp", "cc", "hs", "exe", "pdf"][24]@ == ext); } }
        assert(ext != "cpp"@) by { if ext == "cpp"@ { assert(seq!["rs", "toml", "json", "yaml", "yml", "png", "jpg", "jpeg", "svg", "gif", "mp3", "wav", "flac", "mp4", "mkv", "zip", "tar", "gz", "py", "sh", "bash", "md", "txt", "c", "h", "cpp", "hpp", "cc", "hs", "exe", "pdf"][25]@ == ext); } }
        assert(ext != "hpp"@) by { if ext == "hpp"@ { assert(seq!["rs", "toml", "json", "yaml", "yml", "png", "jpg", "jpeg", "svg", "gif", "mp3", "wav", "flac", "mp4", "mkv", "zip", "tar", "gz", "py", "sh", "bash", "md", "txt", "c", "h", "cpp", "hpp", "cc", "hs", "exe", "pdf"][26]@ == ext); } }
        assert(ext != "cc"@) by { if ext == "cc"@ { assert(seq!["rs", "toml", "json", "yaml", "yml", "png", "jpg", "jpeg", "svg", "gif", "mp3", "wav", "flac", "mp4", "mkv", "zip", "tar", "gz", "py", "sh", "bash", "md", "txt", "c", "h", "cpp", "hpp", "cc", "hs", "exe", "pdf"][27]@ == ext); } }
        assert(ext != "hs"@) by { if ext == "hs"@ { assert(seq!["rs", "toml", "json", "yaml", "yml", "png", "jpg", "jpeg", "svg", "gif", "mp3", "wav", "flac", "mp4", "mkv", "zip", "tar", "gz", "py", "sh", "bash", "md", "txt", "c", "h", "cpp", "hpp", "cc", "hs", "exe", "pdf"][28]@ == ext); } }
        assert(ext != "exe"@) by { if ext == "exe"@ { assert(seq!["rs", "toml", "json", "yaml", "yml", "png", "jpg", "jpeg", "svg", "gif", "mp3", "wav", "flac", "mp4", "mkv", "zip", "tar", "gz", "py", "sh", "bash", "md", "txt", "c", "h", "cpp", "hpp", "cc", "hs", "exe", "pdf"][29]@ == ext); } }
        assert(ext != "pdf"@) by { if ext == "pdf"@ { assert(seq!["rs", "toml", "json", "yaml", "yml", "png", "jpg", "jpeg", "svg", "gif", "mp3", "wav", "flac", "mp4", "mkv", "zip", "tar", "gz", "py", "sh", "bash", "md", "txt", "c", "h", "cpp", "hpp", "cc", "hs", "exe", "pdf"][30]@ == ext); } }
    }
}

fn ext_is(ext: &Vec<char>, lit: &str) -> (r: bool)
    ensures
        r == (ext@ == lit@),
{
    let v = chars_of(lit);
    crate::text::same_chars(ext, &v)
}

fn type_of_ext(ext: &Vec<char>) -> (r: &'static str)
    ensures
        r == file_type_of_ext(ext@),
{
    if ext_is(ext, "rs") { "Rust source" }
    else if ext_is(ext, "toml") { "TOML config" }
    else if ext_is(ext, "json") { "JSON data" }
    else if is_one_of(ext, &["yaml", "yml"]) { "YAML config" }
    else if ext_is(ext, "png") { "PNG image" }
    else if is_one_of(ext, &["jpg", "jpeg"]) { "JPEG image" }
    else if ext_is(ext, "svg") { "SVG image" }
    else if ext_is(ext, "gif") { "GIF image" }
    else if ext_is(ext, "mp3") { "MP3 audio" }
    else if ext_is(ext, "wav") { "WAV audio" }
    else if ext_is(ext, "flac") { "FLAC audio" }
    else if ext_is(ext, "mp4") { "MP4 video" }
    else if ext_is(ext, "mkv") { "Matroska video" }
    else if ext_is(ext, "zip") { "ZIP archive" }
    else if ext_is(ext, "tar") { "Tar archive" }
    else if ext_is(ext, "gz") { "Gzip archive" }
    else if ext_is(ext, "py") { "Python source" }
    else if is_one_of(ext, &["sh", "bash"]) { "Shell script" }
    else if ext_is(ext, "md") { "Markdown" }
    else if ext_is(ext, "txt") { "Plain text" }
    else if is_one_of(ext, &["c", "h"]) { "C source" }
    else if is_one_of(ext, &["cpp", "hpp", "cc"]) { "C++ source" }
    else if ext_is(ext, "hs") { "Haskell source" }
    else if ext_is(ext, "exe") { "Windows executable" }
    else if ext_is(ext, "pdf") { "PDF document" }
    else { "File" }
}

pub fn infer_file_type(name: &str, is_dir: bool) -> (r: String)
    ensures
        r@ == file_type_text(name@, is_dir),
{
    if is_dir {
        return String::from_str("Directory");
    }
    let ext = chars_after_last(&chars_of(name), '.');
    String::from_str(type_of_ext(&ext))
}

} // verus!

verus! {

// ── The preview pane's text ─────────────────────────────────────────

/// How many bytes of a file the preview reads to show its content.
pub const PREVIEW_SAMPLE_BYTES: usize = 65536;

/// How many entries of a directory its preview lists.
pub const PREVIEW_LISTING_LIMIT: usize = 100;

/// The name the preview shows: the path's file name, else the whole path.
pub open spec fn preview_name_of(path: Seq<char>) -> Seq<char> {
    match file_name(path) {
        Some(n) => n,
        None => path,
    }
}

/// The preview's name for `path` (see `preview_name_of`).
pub fn preview_name(path: &str) -> (r: String)
    ensures
        r@ == preview_name_of(path@),
{
    match path_file_name(path) {
        Some(n) => n,
        None => path.to_owned(),
    }
}

/// A directory listing line: an icon, a space, the entry's name.
pub open spec fn listing_line(name: Seq<char>, is_dir: bool) -> Seq<char> {
    (if is_dir { "📁"@ } else { "📄"@ }) + " "@ + name
}

/// Lines joined by `\n`.
pub open spec fn joined_lines(ls: Seq<Seq<char>>) -> Seq<char>
    decreases ls.len(),
{
    if ls.len() == 0 {
        Seq::empty()
    } else if ls.len() == 1 {
        ls[0]
    } else {
        joined_lines(ls.drop_last()) + "\n"@ + ls.last()
    }
}

/// The preview of a directory whose entries are (name, is_dir), in the
/// order the directory yields them: a line for each of the first hundred,
/// or `[Empty directory]`.
pub open spec fn directory_preview_text(entries: Seq<(String, bool)>) -> Seq<char> {
    let shown = if entries.len() > PREVIEW_LISTING_LIMIT { entries.take(PREVIEW_LISTING_LIMIT as int) } else { entries };
    if shown.len() == 0 {
        "[Empty directory]"@
    } else {
        joined_lines(shown.map_values(|e: (String, bool)| listing_line(e.0@, e.1)))
    }
}

/// The preview text of a directory (see `directory_preview_text`).
pub fn directory_preview(entries: &Vec<(String, bool)>) -> (r: String)
    ensures
        r@ == directory_preview_text(entries@),
{
    let n = if entries.len() > PREVIEW_LISTING_LIMIT { PREVIEW_LISTING_LIMIT } else { entries.len() };
    if n == 0 {
        return String::from_str("[Empty directory]");
    }
    let ghost shown = if entries@.len() > PREVIEW_LISTING_LIMIT { entries@.take(PREVIEW_LISTING_LIMIT as int) } else { entries@ };
    let ghost ls = shown.map_values(|e: (String, bool)| listing_line(e.0@, e.1));
    let mut r = String::new();
    let mut k: usize = 0;
    while k < n
        invariant
            k <= n,
            n == shown.len(),
            n <= entries@.len(),
            shown == (if entries@.len() > PREVIEW_LISTING_LIMIT { entries@.take(PREVIEW_LISTING_LIMIT as int) } else { entries@ }),
            ls == shown.map_values(|e: (String, bool)| listing_line(e.0@, e.1)),
            r@ == joined_lines(ls.take(k as int)),
        decreases n - k,
    {
        let e = &entries[k];
        let ghost before = r@;
        if k > 0 {
            r.append("\n");
        }
        if e.1 {
            r.append("📁");
        } else {
            r.append("📄");
        }
        r.append(" ");
        r.append(e.0.as_str());
        proof {
            assert(shown[k as int] == entries@[k as int]);
            let t = ls.take(k + 1);
            assert(t.drop_last() =~= ls.take(k as int));
            assert(t.last() == listing_line(e.0@, e.1));
            if k == 0 {
                assert(r@ =~= listing_line(e.0@, e.1));
            } else {
                assert(r@ =~= before + "\n"@ + listing_line(e.0@, e.1));
            }
        }
        k = k + 1;
    }
    proof {
        assert(ls.take(n as int) =~= ls);
    }
    r
}

/// Where UTF-8 validation of bytes that are not valid UTF-8 stopped
/// (`Utf8Error`): the length of the valid prefix, and whether the input
/// ended inside a character (`error_len()` is None).
pub uninterp spec fn utf8_failure(bytes: Seq<u8>) -> (usize, bool);

/// `std::str::from_utf8`: whether the bytes are valid UTF-8 and, when they
/// are not, `valid_up_to()` and whether `error_len()` is None.
#[verifier::external_body]
fn check_utf8(bytes: &[u8]) -> (r: (bool, usize, bool))
    ensures
        r.0 == valid_utf8(bytes@),
        !r.0 ==> (r.1, r.2) == utf8_failure(bytes@),
{
    match std::str::from_utf8(bytes) {
        Ok(_) => (true, bytes.len(), false),
        Err(e) => (false, e.valid_up_to(), e.error_len().is_none()),
    }
}

/// Whether a file's first bytes read as text: valid UTF-8, or valid up to
/// a character cut off by the end of the sample, with something before it.
pub open spec fn looks_like_text(bytes: Seq<u8>) -> bool {
    valid_utf8(bytes) || (utf8_failure(bytes).1 && utf8_failure(bytes).0 > 0)
}

/// The content preview of a file from its first bytes: the text, decoded
/// lossily, when they read as text; else `[Binary file content]`.
pub open spec fn content_preview_text(bytes: Seq<u8>) -> Seq<char> {
    if looks_like_text(bytes) { utf8_lossy(bytes) } else { "[Binary file content]"@ }
}

/// The content preview of a file's first bytes (see `content_preview_text`).
pub fn content_preview(sample: &Vec<u8>) -> (r: String)
    ensures
        r@ == content_preview_text(sample@),
{
    let (valid, up_to, cut) = check_utf8(sample.as_slice());
    if valid || (cut && up_to > 0) {
        string_from_utf8_lossy(sample.as_slice())
    } else {
        String::from_str("[Binary file content]")
    }
}

/// The extensions whose files the preview shows as images.
pub open spec fn image_preview_exts() -> Seq<&'static str> {
    seq!["png", "jpg", "jpeg", "gif", "webp", "bmp", "ico"]
}

/// Whether the preview tries to show `path` as an image: its file name's
/// extension, lower-cased, is an image extension. (ASCII lower-casing
/// decides membership in this all-ASCII list as Unicode lower-casing does:
/// no other character lower-cases to one of these letters.)
pub open spec fn is_image_path(path: Seq<char>) -> bool {
    match file_name(path) {
        Some(n) => match extension(n) {
            Some(e) => one_of(e, image_preview_exts()),
            None => false,
        },
        None => false,
    }
}

/// Whether the preview tries `path` as an image (see `is_image_path`).
pub fn wants_image_preview(path: &str) -> (r: bool)
    ensures
        r == is_image_path(path@),
{
    let name = match path_file_name(path) {
        Some(n) => n,
        None => return false,
    };
    match extension_of(name.as_str()) {
        Some(e) => is_one_of(&e, &["png", "jpg", "jpeg", "gif", "webp", "bmp", "ico"]),
        None => false,
    }
}

/// The file type line of the preview: the inferred type, followed for a
/// file by its MIME type and, when one is known, the application that
/// opens it.
pub open spec fn described_type(base: Seq<char>, is_dir: bool, mime: Option<Seq<char>>, app: Option<Seq<char>>) -> Seq<char> {
    if is_dir {
        base
    } else {
        match mime {
            None => base,
            Some(m) => match app {
                Some(a) => base + " ("@ + m + ") [Open with: "@ + a + "]"@,
                None => base + " ("@ + m + ")"@,
            },
        }
    }
}

/// The preview's file type line (see `described_type`).
pub fn describe_file_type(name: &str, is_dir: bool, mime: &Option<String>, app_name: &Option<String>) -> (r: String)
    ensures
        r@ == described_type(file_type_text(name@, is_dir), is_dir, opt_view(*mime), opt_view(*app_name)),
{
    let mut t = infer_file_type(name, is_dir);
    if !is_dir {
        match mime {
            Some(m) => {
                t.append(" (");
                t.append(m.as_str());
                match app_name {
                    Some(a) => {
                        t.append(") [Open with: ");
                        t.append(a.as_str());
                        t.append("]");
                    },
                    None => {
                        t.append(")");
                    },
                }
            },
            None => {},
        }
    }
    t
}

/// The text chrono gives a UTC timestamp with a strftime pattern; None
/// when the timestamp is out of its range.
pub uninterp spec fn utc_text(secs: i64, pattern: Seq<char>) -> Option<Seq<char>>;

/// `DateTime::<Utc>::from_timestamp(secs, 0)` formatted with
/// `DateTime::format(pattern)`: the text, or None when the timestamp is
/// out of range. Only the two patterns the library uses are admitted.
#[verifier::external_body]
fn format_utc(secs: i64, pattern: &str) -> (r: Option<String>)
    requires
        pattern@ == "%Y-%m-%d %H:%M"@ || pattern@ == "%Y-%m-%d %H:%M:%S"@,
    ensures
        opt_view(r) == utc_text(secs, pattern@),
{
    match chrono::DateTime::from_timestamp(secs, 0) {
        Some(d) => Some(d.format(pattern).to_string()),
        None => None,
    }
}

/// A modification time as shown: seconds since the epoch, formatted in
/// UTC to the minute (listing) or to the second (preview); `—` when
/// unknown or out of range.
pub open spec fn modified_text_of(secs: Option<u64>, with_seconds: bool) -> Seq<char> {
    let pattern = if with_seconds { "%Y-%m-%d %H:%M:%S"@ } else { "%Y-%m-%d %H:%M"@ };
    match secs {
        Some(s) => match utc_text(s as i64, pattern) {
            Some(t) => t,
            None => "—"@,
        },
        None => "—"@,
    }
}

/// The modification time text (see `modified_text_of`).
pub fn modified_text(secs: Option<u64>, with_seconds: bool) -> (r: String)
    ensures
        r@ == modified_text_of(secs, with_seconds),
{
    match secs {
        Some(s) => {
            let t = if with_seconds {
                format_utc(s as i64, "%Y-%m-%d %H:%M:%S")
            } else {
                format_utc(s as i64, "%Y-%m-%d %H:%M")
            };
            match t {
                Some(t) => t,
                None => String::from_str("—"),
            }
        },
        None => String::from_str("—"),
    }
}

} // verus!
