//! The freedesktop.org Trash spec (v1.0), home trash only: an item moves into
//! `$XDG_DATA_HOME/Trash/files/` (else `~/.local/share/Trash/files/`) and
//! carries an `info/<name>.trashinfo` sidecar recording where it came from
//! and when it was deleted.
//!
//! This module holds the spec's rules as plain computations: where the trash
//! lives, how a trashed item is named, what its sidecar says and how the
//! sidecar is read back. The filesystem calls that apply them are made by the
//! application around the library.

use vstd::prelude::*;
use vstd::utf8::*;
use crate::path::{parent, path_parent, lemma_split_nonempty, parts_view, split_chars, file_name, is_absolute, joined, path_file_name, path_join, paths_equal, same_path, split_on};
use crate::text::{chars_of, concat_str, decimal, decimal_string, digit_char, line_at, lines_of, push_char, string_from_chars, without_cr};

verus! {

// ── Percent coding of the `Path=` line ──────────────────────────────

/// Bytes that stand for themselves in a `Path=` value: ASCII letters and
/// digits, `-`, `_`, `.`, `~`, and the path separator `/`.
pub open spec fn is_unreserved(b: u8) -> bool {
    ||| 0x41 <= b <= 0x5A
    ||| 0x61 <= b <= 0x7A
    ||| 0x30 <= b <= 0x39
    ||| b == 0x2D
    ||| b == 0x5F
    ||| b == 0x2E
    ||| b == 0x7E
    ||| b == 0x2F
}

/// The upper-case hex digit (as an ASCII byte) for a value below 16.
pub open spec fn hex_digit_upper(n: int) -> u8 {
    if n < 10 { (0x30 + n) as u8 } else { (0x41 + n - 10) as u8 }
}

/// The bytes one input byte encodes to: itself when unreserved, else `%XX`.
pub open spec fn encode_byte(b: u8) -> Seq<u8> {
    if is_unreserved(b) {
        seq![b]
    } else {
        seq![0x25u8, hex_digit_upper((b / 16) as int), hex_digit_upper((b % 16) as int)]
    }
}

/// Percent-encoding of a byte string, byte by byte.
pub open spec fn percent_encode_bytes(bs: Seq<u8>) -> Seq<u8>
    decreases bs.len(),
{
    if bs.len() == 0 {
        seq![]
    } else {
        percent_encode_bytes(bs.drop_last()) + encode_byte(bs.last())
    }
}

/// The value of an ASCII hex digit (either case), if `c` is one.
pub open spec fn hex_value(c: u8) -> Option<u8> {
    if 0x30 <= c <= 0x39 {
        Some((c - 0x30) as u8)
    } else if 0x61 <= c <= 0x66 {
        Some((c - 0x61 + 10) as u8)
    } else if 0x41 <= c <= 0x46 {
        Some((c - 0x41 + 10) as u8)
    } else {
        None
    }
}

/// Percent-decoding of a byte string, left to right: a `%` followed by two
/// hex digits becomes the byte they spell; every other byte, a lone or
/// malformed `%` included, is kept as it is.
pub open spec fn percent_decode_bytes(bs: Seq<u8>) -> Seq<u8>
    decreases bs.len(),
{
    if bs.len() == 0 {
        seq![]
    } else if bs[0] == 0x25 && bs.len() >= 3 && hex_value(bs[1]) is Some && hex_value(bs[2]) is Some {
        seq![(hex_value(bs[1])->0 * 16 + hex_value(bs[2])->0) as u8]
            + percent_decode_bytes(bs.subrange(3, bs.len() as int))
    } else {
        seq![bs[0]] + percent_decode_bytes(bs.drop_first())
    }
}

/// The characters that spell a sequence of ASCII bytes.
pub open spec fn ascii_chars(bs: Seq<u8>) -> Seq<char> {
    bs.map_values(|b: u8| b as char)
}

/// What `percent_encode` makes of a string: the percent-encoding of its
/// UTF-8 bytes.
pub open spec fn percent_encoded(s: Seq<char>) -> Seq<char> {
    ascii_chars(percent_encode_bytes(encode_utf8(s)))
}

/// Lossy UTF-8 decoding (`String::from_utf8_lossy`): every maximal invalid
/// sequence becomes U+FFFD.
pub uninterp spec fn utf8_lossy(bytes: Seq<u8>) -> Seq<char>;

/// The text a byte string stands for: its decoding when it is valid UTF-8,
/// else the lossy decoding.
pub open spec fn utf8_text(bytes: Seq<u8>) -> Seq<char> {
    if valid_utf8(bytes) {
        decode_utf8(bytes)
    } else {
        utf8_lossy(bytes)
    }
}

/// What `percent_decode` makes of a string: its UTF-8 bytes percent-decoded,
/// read back as text.
pub open spec fn percent_decoded(s: Seq<char>) -> Seq<char> {
    utf8_text(percent_decode_bytes(encode_utf8(s)))
}

/// `String::from_utf8_lossy`: the bytes read as UTF-8, invalid sequences
/// replaced by U+FFFD; valid UTF-8 comes back unchanged.
#[verifier::external_body]
pub(crate) fn string_from_utf8_lossy(bytes: &[u8]) -> (r: String)
    ensures
        r@ == utf8_lossy(bytes@),
        valid_utf8(bytes@) ==> r@ == decode_utf8(bytes@),
{
    String::from_utf8_lossy(bytes).into_owned()
}

proof fn lemma_encode_concat(a: Seq<u8>, b: Seq<u8>)
    ensures
        percent_encode_bytes(a + b) == percent_encode_bytes(a) + percent_encode_bytes(b),
    decreases b.len(),
{
    if b.len() == 0 {
        assert(a + b =~= a);
    } else {
        assert((a + b).drop_last() =~= a + b.drop_last());
        assert((a + b).last() == b.last());
        lemma_encode_concat(a, b.drop_last());
    }
}

proof fn lemma_encode_is_ascii(bs: Seq<u8>)
    ensures
        forall|i: int| 0 <= i < percent_encode_bytes(bs).len() ==> #[trigger] percent_encode_bytes(bs)[i] < 128,
    decreases bs.len(),
{
    if bs.len() > 0 {
        lemma_encode_is_ascii(bs.drop_last());
        let a = percent_encode_bytes(bs.drop_last());
        let e = encode_byte(bs.last());
        assert forall|i: int| 0 <= i < e.len() implies #[trigger] e[i] < 128 by {}
        assert forall|i: int| 0 <= i < (a + e).len() implies #[trigger] (a + e)[i] < 128 by {
            if i >= a.len() {
                assert((a + e)[i] == e[i - a.len()]);
            }
        }
    }
}

/// Percent-encoding works byte by byte: ASCII letters, digits, `-`, `_`,
/// `.`, `~` and `/` stand for themselves, and every other byte becomes `%`
/// followed by its two upper-case hexadecimal digits.
pub proof fn lemma_percent_encoding_bytes(bs: Seq<u8>, b: u8)
    ensures
        percent_encode_bytes(bs.push(b)) == percent_encode_bytes(bs) + percent_encode_bytes(seq![b]),
        ({
            let plain = (0x41 <= b <= 0x5A) || (0x61 <= b <= 0x7A) || (0x30 <= b <= 0x39)
                || b == 0x2Du8 || b == 0x5Fu8 || b == 0x2Eu8 || b == 0x7Eu8 || b == 0x2Fu8;
            let hi = b / 16;
            let lo = b % 16;
            &&& plain ==> percent_encode_bytes(seq![b]) == seq![b]
            &&& !plain ==> percent_encode_bytes(seq![b]) == seq![
                0x25u8,
                (if hi < 10 { 0x30 + hi } else { 0x41 + hi - 10 }) as u8,
                (if lo < 10 { 0x30 + lo } else { 0x41 + lo - 10 }) as u8,
            ]
        }),
{
    assert(bs.push(b).drop_last() =~= bs);
    assert(seq![b].drop_last() =~= Seq::<u8>::empty());
    assert(percent_encode_bytes(seq![b]) =~= encode_byte(b)) by {
        reveal_with_fuel(percent_encode_bytes, 2);
    }
}

/// Percent-decoding undoes percent-encoding, for every byte string.
pub proof fn lemma_decode_encode_bytes(bs: Seq<u8>)
    ensures
        percent_decode_bytes(percent_encode_bytes(bs)) == bs,
    decreases bs.len(),
{
    if bs.len() > 0 {
        let first = seq![bs[0]];
        let rest = bs.drop_first();
        assert(bs =~= first + rest);
        lemma_encode_concat(first, rest);
        assert(first.drop_last() =~= Seq::<u8>::empty());
        let e = percent_encode_bytes(bs);
        let ef = encode_byte(bs[0]);
        let er = percent_encode_bytes(rest);
        assert(percent_encode_bytes(first) =~= ef) by {
            reveal_with_fuel(percent_encode_bytes, 2);
        }
        assert(e =~= ef + er);
        lemma_decode_encode_bytes(rest);
        if is_unreserved(bs[0]) {
            assert(e.drop_first() =~= er);
        } else {
            let b = bs[0];
            assert(hex_value(hex_digit_upper((b / 16) as int)) == Some((b / 16) as u8));
            assert(hex_value(hex_digit_upper((b % 16) as int)) == Some((b % 16) as u8));
            assert(e.subrange(3, e.len() as int) =~= er);
        }
        assert(percent_decode_bytes(e) =~= first + rest);
    }
}

proof fn lemma_ascii_chars_bytes(bs: Seq<u8>)
    requires
        forall|i: int| 0 <= i < bs.len() ==> #[trigger] bs[i] < 128,
    ensures
        is_ascii_chars(ascii_chars(bs)),
        encode_utf8(ascii_chars(bs)) == bs,
{
    let cs = ascii_chars(bs);
    assert forall|i: int| 0 <= i < cs.len() implies '\0' <= #[trigger] cs[i] <= '\u{7f}' by {
        assert(cs[i] == bs[i] as char);
    }
    is_ascii_chars_encode_utf8(cs);
    assert forall|i: int| 0 <= i < bs.len() implies encode_utf8(cs)[i] == bs[i] by {
        assert(cs[i] as u8 == encode_utf8(cs)[i]);
        assert(cs[i] == bs[i] as char);
    }
    assert(encode_utf8(cs) =~= bs);
}

/// Reading back an encoded path gives the path itself: `percent_decode`
/// undoes `percent_encode` on every string.
pub proof fn lemma_percent_roundtrip(s: Seq<char>)
    ensures
        percent_decoded(percent_encoded(s)) == s,
{
    let bs = encode_utf8(s);
    lemma_encode_is_ascii(bs);
    lemma_ascii_chars_bytes(percent_encode_bytes(bs));
    lemma_decode_encode_bytes(bs);
    encode_utf8_valid_utf8(s);
    encode_utf8_decode_utf8(s);
}

fn hex_digit(n: u8) -> (c: char)
    requires
        n < 16,
    ensures
        c == hex_digit_upper(n as int) as char,
{
    if n < 10 {
        (0x30u8 + n) as char
    } else {
        (0x41u8 + n - 10) as char
    }
}

/// Percent-encode a path for a trashinfo `Path=` line: unreserved bytes and
/// `/` pass through, every other byte (spaces, non-ASCII, ...) becomes `%XX`.
pub fn percent_encode(s: &str) -> (r: String)
    ensures
        r@ == percent_encoded(s@),
{
    let bytes = s.as_bytes();
    let mut out = String::new();
    let mut i: usize = 0;
    while i < bytes.len()
        invariant
            i <= bytes@.len(),
            bytes@ == encode_utf8(s@),
            out@ == ascii_chars(percent_encode_bytes(bytes@.subrange(0, i as int))),
        decreases bytes@.len() - i,
    {
        let b = bytes[i];
        proof {
            assert(bytes@.subrange(0, i + 1).drop_last() =~= bytes@.subrange(0, i as int));
        }
        let ghost before = out@;
        if (b >= 0x41 && b <= 0x5A) || (b >= 0x61 && b <= 0x7A) || (b >= 0x30 && b <= 0x39)
            || b == 0x2D || b == 0x5F || b == 0x2E || b == 0x7E || b == 0x2F
        {
            push_char(&mut out, b as char);
        } else {
            push_char(&mut out, '%');
            push_char(&mut out, hex_digit(b / 16));
            push_char(&mut out, hex_digit(b % 16));
        }
        proof {
            let p = percent_encode_bytes(bytes@.subrange(0, i + 1));
            assert(out@ =~= ascii_chars(p));
        }
        i = i + 1;
    }
    proof {
        assert(bytes@.subrange(0, bytes@.len() as int) =~= bytes@);
    }
    out
}

fn hex_value_of(c: u8) -> (r: Option<u8>)
    ensures
        r == hex_value(c),
{
    if c >= 0x30 && c <= 0x39 {
        Some(c - 0x30)
    } else if c >= 0x61 && c <= 0x66 {
        Some(c - 0x61 + 10)
    } else if c >= 0x41 && c <= 0x46 {
        Some(c - 0x41 + 10)
    } else {
        None
    }
}

/// Decode a trashinfo `Path=` value: `%XX` escapes (either case) become the
/// byte they spell, anything else is kept, and the bytes are read back as
/// UTF-8 (invalid sequences replaced).
pub fn percent_decode(s: &str) -> (r: String)
    ensures
        r@ == percent_decoded(s@),
{
    let bytes = s.as_bytes();
    let n = bytes.len();
    let mut out: Vec<u8> = Vec::new();
    let mut i: usize = 0;
    proof {
        assert(bytes@.subrange(0, n as int) =~= bytes@);
    }
    while i < n
        invariant
            n == bytes@.len(),
            i <= n,
            bytes@ == encode_utf8(s@),
            out@ + percent_decode_bytes(bytes@.subrange(i as int, n as int))
                == percent_decode_bytes(bytes@),
        decreases n - i,
    {
        let ghost rest = bytes@.subrange(i as int, n as int);
        if bytes[i] == 0x25 && n - i > 2 {
            let h = hex_value_of(bytes[i + 1]);
            let l = hex_value_of(bytes[i + 2]);
            if let (Some(h), Some(l)) = (h, l) {
                proof {
                    assert(rest[1] == bytes@[i + 1]);
                    assert(rest[2] == bytes@[i + 2]);
                    assert(rest.subrange(3, rest.len() as int) =~= bytes@.subrange(i + 3, n as int));
                    assert(out@.push((h * 16 + l) as u8) + percent_decode_bytes(bytes@.subrange(i + 3, n as int))
                        =~= out@ + percent_decode_bytes(rest));
                }
                out.push(h * 16 + l);
                i = i + 3;
                continue;
            }
        }
        proof {
            if rest[0] == 0x25 && rest.len() >= 3 {
                assert(rest[1] == bytes@[i + 1]);
                assert(rest[2] == bytes@[i + 2]);
            }
            assert(rest.drop_first() =~= bytes@.subrange(i + 1, n as int));
            assert(out@.push(bytes@[i as int]) + percent_decode_bytes(bytes@.subrange(i + 1, n as int))
                =~= out@ + percent_decode_bytes(rest));
        }
        out.push(bytes[i]);
        i = i + 1;
    }
    proof {
        assert(bytes@.subrange(n as int, n as int) =~= Seq::<u8>::empty());
        assert(out@ =~= percent_decode_bytes(bytes@));
    }
    string_from_utf8_lossy(out.as_slice())
}

// ── Where the trash lives ───────────────────────────────────────────

/// The environment the trash location depends on: `$XDG_DATA_HOME` and
/// `$HOME`, as the caller read them.
pub struct TrashEnv {
    pub xdg_data_home: Option<String>,
    pub home: Option<String>,
}

/// `$XDG_DATA_HOME/Trash` when that variable holds an absolute path, else
/// `$HOME/.local/share/Trash`; none only when both fail.
pub open spec fn trash_dir_of(xdg_data_home: Option<Seq<char>>, home: Option<Seq<char>>) -> Option<Seq<char>> {
    match xdg_data_home {
        Some(d) if is_absolute(d) => Some(joined(d, "Trash"@)),
        _ => match home {
            Some(h) => Some(joined(h, ".local/share/Trash"@)),
            None => None,
        },
    }
}

pub open spec fn opt_view(o: Option<String>) -> Option<Seq<char>> {
    match o {
        Some(s) => Some(s@),
        None => None,
    }
}

pub open spec fn trash_dir_in(env: TrashEnv) -> Option<Seq<char>> {
    trash_dir_of(opt_view(env.xdg_data_home), opt_view(env.home))
}

/// The directory trashed items live in.
pub open spec fn files_dir_in(env: TrashEnv) -> Option<Seq<char>> {
    match trash_dir_in(env) {
        Some(t) => Some(joined(t, "files"@)),
        None => None,
    }
}

/// `$XDG_DATA_HOME/Trash`, else `~/.local/share/Trash`. None only when HOME
/// is unset.
pub fn trash_dir(env: &TrashEnv) -> (r: Option<String>)
    ensures
        opt_view(r) == trash_dir_in(*env),
{
    if let Some(d) = &env.xdg_data_home {
        if d.as_str().unicode_len() > 0 && d.as_str().get_char(0) == '/' {
            return Some(path_join(d.as_str(), "Trash"));
        }
    }
    match &env.home {
        Some(h) => Some(path_join(h.as_str(), ".local/share/Trash")),
        None => None,
    }
}

/// The directory trashed items live in — what the browse page navigates to.
pub fn files_dir(env: &TrashEnv) -> (r: Option<String>)
    ensures
        opt_view(r) == files_dir_in(*env),
{
    match trash_dir(env) {
        Some(t) => Some(path_join(t.as_str(), "files")),
        None => None,
    }
}

/// Whether `dir` is, as a path, the trash's files directory.
pub open spec fn is_trash_files_dir_in(dir: Seq<char>, env: TrashEnv) -> bool {
    match files_dir_in(env) {
        Some(f) => same_path(f, dir),
        None => false,
    }
}

/// Whether `dir` IS the trash files directory (the browse page's gate for
/// offering Restore / Delete Permanently instead of Delete).
pub fn is_trash_files_dir(dir: &str, env: &TrashEnv) -> (r: bool)
    ensures
        r == is_trash_files_dir_in(dir@, *env),
{
    match files_dir(env) {
        Some(f) => paths_equal(f.as_str(), dir),
        None => false,
    }
}

// ── Trashing ────────────────────────────────────────────────────────

/// Why a trash operation cannot go ahead.
#[derive(Debug, Clone, PartialEq, Eq)]
pub enum TrashError {
    /// No home directory: the trash is unavailable.
    NoHome,
    /// The path has no file name to trash or restore under.
    NoFileName,
    /// Every candidate trash name is taken.
    NoFreeName,
    /// The trashinfo sidecar has no `Path=` line.
    NoOriginLine,
    /// Restoring would overwrite this existing path.
    OriginExists(String),
}

/// The body of an item's `.trashinfo` sidecar.
pub open spec fn trash_info_text(origin: Seq<char>, deleted_at: Seq<char>) -> Seq<char> {
    "[Trash Info]\nPath="@ + percent_encoded(origin) + "\nDeletionDate="@ + deleted_at + "\n"@
}

/// What trashing one item takes: the trash's `files` and `info`
/// directories, the item's origin, the name it is trashed under (before any
/// collision suffix), and the body of its sidecar.
pub struct TrashPlan {
    pub files: String,
    pub info: String,
    pub origin: String,
    pub name: String,
    pub info_body: String,
}

/// Plan moving `origin` (the item's canonical path, else the path as given)
/// into the trash, deleted at `deleted_at` (local time, `%Y-%m-%dT%H:%M:%S`).
pub fn move_to_trash(env: &TrashEnv, origin: &str, deleted_at: &str) -> (r: Result<TrashPlan, TrashError>)
    ensures
        match r {
            Ok(plan) => {
                &&& trash_dir_in(*env) is Some
                &&& plan.files@ == joined(trash_dir_in(*env)->0, "files"@)
                &&& plan.info@ == joined(trash_dir_in(*env)->0, "info"@)
                &&& plan.origin@ == origin@
                &&& file_name(origin@) == Some(plan.name@)
                &&& plan.info_body@ == trash_info_text(origin@, deleted_at@)
            },
            Err(e) => {
                ||| trash_dir_in(*env) is None && e == TrashError::NoHome
                ||| trash_dir_in(*env) is Some && file_name(origin@) is None && e == TrashError::NoFileName
            },
        },
{
    let base = match trash_dir(env) {
        Some(b) => b,
        None => return Err(TrashError::NoHome),
    };
    let name = match path_file_name(origin) {
        Some(n) => n,
        None => return Err(TrashError::NoFileName),
    };
    let files = path_join(base.as_str(), "files");
    let info = path_join(base.as_str(), "info");
    let mut body = String::from_str("[Trash Info]\nPath=");
    let encoded = percent_encode(origin);
    body.append(encoded.as_str());
    body.append("\nDeletionDate=");
    body.append(deleted_at);
    body.append("\n");
    Ok(TrashPlan { files, info, origin: origin.to_owned(), name, info_body: body })
}

/// Trash names are reserved `name`, `name.2`, `name.3`, ... up to this many.
pub const MAX_TRASH_NAME_ATTEMPTS: u32 = 10_000;

/// The `n`-th candidate trash name for `name` (`n` counts from 1).
pub open spec fn candidate_name(name: Seq<char>, n: nat) -> Seq<char> {
    if n == 1 { name } else { name + seq!['.'] + decimal(n) }
}

pub fn trash_candidate(name: &str, n: u32) -> (r: String)
    ensures
        r@ == candidate_name(name@, n as nat),
{
    if n == 1 {
        name.to_owned()
    } else {
        let mut r = String::from_str(name);
        push_char(&mut r, '.');
        let digits = decimal_string(n);
        r.append(digits.as_str());
        r
    }
}

/// The candidate to try after candidate `n` was taken; `NoFreeName` once
/// the attempts are used up.
pub fn next_candidate_number(n: u32) -> (r: Result<u32, TrashError>)
    ensures
        r == (if n < MAX_TRASH_NAME_ATTEMPTS { Ok::<u32, TrashError>((n + 1) as u32) } else { Err(TrashError::NoFreeName) }),
{
    if n < MAX_TRASH_NAME_ATTEMPTS { Ok(n + 1) } else { Err(TrashError::NoFreeName) }
}

/// What reserving a trash name came to.
#[derive(Debug)]
pub enum Reservation<E> {
    /// This candidate's sidecar was created: the item goes under this name.
    Reserved(String),
    /// Creating a sidecar failed for another reason than the name being taken.
    Failed(E),
    /// Every candidate was taken.
    NoFreeName,
}

/// Trying to create the sidecar of candidate `n` of `name` may answer
/// `out`: created (`Ok(true)`), taken (`Ok(false)`) or an error.
pub open spec fn answers<E, F: Fn(String) -> Result<bool, E>>(try_create: F, name: Seq<char>, n: nat, out: Result<bool, E>) -> bool {
    exists|s: String| s@ == candidate_name(name, n) && #[trigger] call_ensures(try_create, (s,), out)
}

/// Reserve a trash name for `name` by trying to create the sidecars of its
/// candidates (`name`, `name.2`, `name.3`, ...) in turn with `try_create`,
/// which creates a candidate's sidecar exclusively. The name reserved is
/// the first candidate whose sidecar could be created: every earlier one
/// was taken. An error other than a taken name stops the search.
pub fn reserve_trash_name<E, F: Fn(String) -> Result<bool, E>>(name: &str, try_create: F) -> (r: Reservation<E>)
    requires
        forall|s: String| call_requires(try_create, (s,)),
    ensures
        match r {
            Reservation::Reserved(c) => exists|n: nat| {
                &&& 1 <= n <= MAX_TRASH_NAME_ATTEMPTS
                &&& c@ == candidate_name(name@, n)
                &&& answers(try_create, name@, n, Ok(true))
                &&& forall|m: nat| 1 <= m < n ==> #[trigger] answers(try_create, name@, m, Ok(false))
            },
            Reservation::Failed(e) => exists|n: nat| {
                &&& 1 <= n <= MAX_TRASH_NAME_ATTEMPTS
                &&& answers(try_create, name@, n, Err(e))
                &&& forall|m: nat| 1 <= m < n ==> #[trigger] answers(try_create, name@, m, Ok(false))
            },
            Reservation::NoFreeName => forall|m: nat| 1 <= m <= MAX_TRASH_NAME_ATTEMPTS
                ==> #[trigger] answers(try_create, name@, m, Ok(false)),
        },
{
    let mut n: u32 = 1;
    loop
        invariant
            1 <= n <= MAX_TRASH_NAME_ATTEMPTS,
            forall|s: String| call_requires(try_create, (s,)),
            forall|m: nat| 1 <= m < n ==> #[trigger] answers(try_create, name@, m, Ok(false)),
        decreases MAX_TRASH_NAME_ATTEMPTS - n,
    {
        let cand = trash_candidate(name, n);
        let ghost g = cand;
        let out = try_create(cand);
        proof {
            assert(answers(try_create, name@, n as nat, out));
        }
        match out {
            Ok(true) => {
                let c = trash_candidate(name, n);
                proof {
                    let w = n as nat;
                    assert(1 <= w <= MAX_TRASH_NAME_ATTEMPTS && c@ == candidate_name(name@, w)
                        && answers(try_create, name@, w, Ok(true))
                        && forall|m: nat| 1 <= m < w ==> #[trigger] answers(try_create, name@, m, Ok(false)));
                }
                return Reservation::Reserved(c);
            },
            Ok(false) => {
                match next_candidate_number(n) {
                    Ok(m) => {
                        n = m;
                    },
                    Err(_) => {
                        return Reservation::NoFreeName;
                    },
                }
            },
            Err(e) => {
                proof {
                    let w = n as nat;
                    assert(1 <= w <= MAX_TRASH_NAME_ATTEMPTS && answers(try_create, name@, w, Err(e))
                        && forall|m: nat| 1 <= m < w ==> #[trigger] answers(try_create, name@, m, Ok(false)));
                    assert(exists|k: nat| {
                        &&& 1 <= k <= MAX_TRASH_NAME_ATTEMPTS
                        &&& answers(try_create, name@, k, Err(e))
                        &&& forall|m: nat| 1 <= m < k ==> #[trigger] answers(try_create, name@, m, Ok(false))
                    });
                }
                let r = Reservation::Failed(e);
                assert(r matches Reservation::Failed(x) && x == e);
                return r;
            },
        }
    }
}

/// The sidecar file name for a trashed item's name.
pub fn info_file_name(trashed_name: &str) -> (r: String)
    ensures
        r@ == trashed_name@ + ".trashinfo"@,
{
    concat_str(trashed_name, ".trashinfo")
}

// ── Reading a sidecar back ──────────────────────────────────────────

/// The origin a sidecar body records: the percent-decoded value of its
/// first `Path=` line.
pub open spec fn origin_in(body: Seq<char>) -> Option<Seq<char>> {
    let ls = lines_of(body);
    if exists|i: int| 0 <= i < ls.len() && (#[trigger] ls[i]).len() >= 5 && ls[i].take(5) == "Path="@ {
        let i = choose|i: int| 0 <= i < ls.len() && (#[trigger] ls[i]).len() >= 5 && ls[i].take(5) == "Path="@
            && forall|k: int| 0 <= k < i ==> !((#[trigger] ls[k]).len() >= 5 && ls[k].take(5) == "Path="@);
        Some(percent_decoded(ls[i].skip(5)))
    } else {
        None
    }
}

fn is_path_line(l: &Vec<char>) -> (r: bool)
    ensures
        r == (l@.len() >= 5 && l@.take(5) == "Path="@),
{
    let key = chars_of("Path=");
    proof {
        reveal_strlit("Path=");
    }
    if l.len() < 5 {
        return false;
    }
    let mut k: usize = 0;
    while k < 5
        invariant
            k <= 5,
            l@.len() >= 5,
            key@ == "Path="@,
            key@.len() == 5,
            forall|m: int| 0 <= m < k ==> l@[m] == key@[m],
        decreases 5 - k,
    {
        if l[k] != key[k] {
            proof {
                assert(l@.take(5)[k as int] != key@[k as int]);
            }
            return false;
        }
        k = k + 1;
    }
    assert(l@.take(5) =~= key@);
    true
}

/// The origin a trashed item restores to, from the body of its .trashinfo
/// sidecar: the percent-decoded value of the first `Path=` line. None when
/// the sidecar has no such line.
pub fn origin_of(info_body: &str) -> (r: Option<String>)
    ensures
        opt_view(r) == origin_in(info_body@),
{
    let cs = chars_of(info_body);
    let parts = split_chars(&cs, '\n');
    let ghost ls = lines_of(info_body@);
    let ghost pv = parts_view(parts@);
    proof {
        lemma_split_nonempty(info_body@, '\n');
        assert(pv == split_on(info_body@, '\n'));
        assert(ls.len() == (if pv.last().len() == 0 { pv.len() - 1 } else { pv.len() as int }));
        assert forall|i: int| 0 <= i < pv.len() - 1 implies #[trigger] ls[i] == without_cr(pv[i]) by {}
        assert(pv.last().len() > 0 ==> ls[pv.len() - 1] == pv.last());
    }
    let mut i: usize = 0;
    while i < parts.len()
        invariant
            i <= parts@.len(),
            pv == parts_view(parts@),
            pv.len() >= 1,
            ls == lines_of(info_body@),
            ls.len() == (if pv.last().len() == 0 { pv.len() - 1 } else { pv.len() as int }),
            forall|m: int| 0 <= m < pv.len() - 1 ==> #[trigger] ls[m] == without_cr(pv[m]),
            pv.last().len() > 0 ==> ls[pv.len() - 1] == pv.last(),
            forall|m: int| 0 <= m < i && m < ls.len() ==> !((#[trigger] ls[m]).len() >= 5 && ls[m].take(5) == "Path="@),
        decreases parts@.len() - i,
    {
        match line_at(&parts, i) {
            Some(l) => {
                proof {
                    assert(pv[i as int] == parts@[i as int]@);
                    assert(l@ == ls[i as int]);
                }
                if is_path_line(&l) {
                    let mut rest: Vec<char> = Vec::new();
                    let mut k: usize = 5;
                    while k < l.len()
                        invariant
                            5 <= k <= l@.len(),
                            rest@ == l@.subrange(5, k as int),
                        decreases l@.len() - k,
                    {
                        rest.push(l[k]);
                        k = k + 1;
                    }
                    let value = string_from_chars(rest.as_slice());
                    proof {
                        assert(rest@ =~= l@.skip(5));
                        let w = i as int;
                        assert(0 <= w < ls.len() && ls[w].len() >= 5 && ls[w].take(5) == "Path="@
                            && forall|k: int| 0 <= k < w ==> !((#[trigger] ls[k]).len() >= 5 && ls[k].take(5) == "Path="@));
                        let c = choose|i: int| 0 <= i < ls.len() && (#[trigger] ls[i]).len() >= 5 && ls[i].take(5) == "Path="@
                            && forall|k: int| 0 <= k < i ==> !((#[trigger] ls[k]).len() >= 5 && ls[k].take(5) == "Path="@);
                        assert(c == w);
                    }
                    return Some(percent_decode(value.as_str()));
                }
            },
            None => {},
        }
        i = i + 1;
    }
    None
}

/// The origin a sidecar body records (see `origin_in`); `NoOriginLine`
/// when it has no `Path=` line.
pub fn read_origin(info_body: &str) -> (r: Result<String, TrashError>)
    ensures
        match r {
            Ok(o) => origin_in(info_body@) == Some(o@),
            Err(e) => origin_in(info_body@) is None && e == TrashError::NoOriginLine,
        },
{
    match origin_of(info_body) {
        Some(o) => Ok(o),
        None => Err(TrashError::NoOriginLine),
    }
}

// ── Restoring ───────────────────────────────────────────────────────

/// The sidecar path of a trashed item (a path under `files/`) in the trash
/// at `base`.
pub open spec fn info_path_in(base: Seq<char>, trashed_name: Seq<char>) -> Seq<char> {
    joined(joined(base, "info"@), trashed_name + ".trashinfo"@)
}

/// Plan restoring a trashed item (a path under `files/`): the path of the
/// sidecar that records where it goes back to.
pub fn restore(env: &TrashEnv, trashed: &str) -> (r: Result<String, TrashError>)
    ensures
        match r {
            Ok(info_path) => {
                &&& trash_dir_in(*env) is Some
                &&& file_name(trashed@) is Some
                &&& info_path@ == info_path_in(trash_dir_in(*env)->0, file_name(trashed@)->0)
            },
            Err(e) => {
                ||| trash_dir_in(*env) is None && e == TrashError::NoHome
                ||| trash_dir_in(*env) is Some && file_name(trashed@) is None && e == TrashError::NoFileName
            },
        },
{
    let base = match trash_dir(env) {
        Some(b) => b,
        None => return Err(TrashError::NoHome),
    };
    let name = match path_file_name(trashed) {
        Some(n) => n,
        None => return Err(TrashError::NoFileName),
    };
    let info_dir = path_join(base.as_str(), "info");
    let sidecar = info_file_name(name.as_str());
    Ok(path_join(info_dir.as_str(), sidecar.as_str()))
}

/// Where a restore puts an item back, given whether something already
/// exists at its origin: it refuses to overwrite; otherwise the origin's
/// parent (if it has one) is the directory to create first.
pub fn restore_target(origin: &str, origin_exists: bool) -> (r: Result<Option<String>, TrashError>)
    ensures
        origin_exists ==> r is Err && r->Err_0 is OriginExists && r->Err_0->OriginExists_0@ == origin@,
        !origin_exists ==> r is Ok && opt_view(r->Ok_0) == parent(origin@),
{
    if origin_exists {
        return Err(TrashError::OriginExists(origin.to_owned()));
    }
    Ok(path_parent(origin))
}

// ── Emptying ────────────────────────────────────────────────────────

/// The two directories of the trash at `base`.
pub struct TrashLayout {
    pub files: String,
    pub info: String,
}

/// Plan emptying the trash: the directory whose entries are deleted (each
/// counted when its removal succeeds) and the directory of sidecars cleared
/// after it.
pub fn empty(env: &TrashEnv) -> (r: Result<TrashLayout, TrashError>)
    ensures
        match r {
            Ok(l) => trash_dir_in(*env) is Some
                && l.files@ == joined(trash_dir_in(*env)->0, "files"@)
                && l.info@ == joined(trash_dir_in(*env)->0, "info"@),
            Err(e) => trash_dir_in(*env) is None && e == TrashError::NoHome,
        },
{
    match trash_dir(env) {
        Some(base) => Ok(TrashLayout {
            files: path_join(base.as_str(), "files"),
            info: path_join(base.as_str(), "info"),
        }),
        None => Err(TrashError::NoHome),
    }
}

/// How many removals succeeded.
pub fn count_removed(outcomes: &Vec<bool>) -> (r: usize)
    ensures
        r == outcomes@.filter(|ok: bool| ok).len(),
{
    let ghost pred = |ok: bool| ok;
    let mut count: usize = 0;
    let mut i: usize = 0;
    proof {
        reveal(Seq::filter);
        assert(outcomes@.subrange(0, 0) =~= Seq::<bool>::empty());
    }
    while i < outcomes.len()
        invariant
            i <= outcomes@.len(),
            count == outcomes@.subrange(0, i as int).filter(pred).len(),
            count <= i,
            pred == (|ok: bool| ok),
        decreases outcomes@.len() - i,
    {
        proof {
            reveal(Seq::filter);
            let t = outcomes@.subrange(0, i + 1);
            assert(t.drop_last() =~= outcomes@.subrange(0, i as int));
        }
        if outcomes[i] {
            count = count + 1;
        }
        i = i + 1;
    }
    proof {
        assert(outcomes@.subrange(0, outcomes@.len() as int) =~= outcomes@);
    }
    count
}

/// `EXDEV` on Linux: a rename across filesystems.
pub fn libc_exdev() -> (r: i32)
    ensures
        r == 18,
{
    18
}

/// Whether a failed rename should fall back to copy + delete: only when it
/// failed because source and target are on different filesystems.
pub fn needs_copy_fallback(raw_os_error: Option<i32>) -> (r: bool)
    ensures
        r == (raw_os_error == Some(18i32)),
{
    match raw_os_error {
        Some(code) => code == libc_exdev(),
        None => false,
    }
}

// ── Laws ────────────────────────────────────────────────────────────

proof fn lemma_encoded_has_no_line_breaks(bs: Seq<u8>)
    ensures
        forall|i: int| 0 <= i < percent_encode_bytes(bs).len() ==> {
            &&& #[trigger] percent_encode_bytes(bs)[i] != 0x0Au8
            &&& percent_encode_bytes(bs)[i] != 0x0Du8
        },
    decreases bs.len(),
{
    if bs.len() > 0 {
        lemma_encoded_has_no_line_breaks(bs.drop_last());
        let a = percent_encode_bytes(bs.drop_last());
        let e = encode_byte(bs.last());
        assert forall|i: int| 0 <= i < e.len() implies #[trigger] e[i] != 0x0Au8 && e[i] != 0x0Du8 by {}
        assert forall|i: int| 0 <= i < (a + e).len() implies #[trigger] (a + e)[i] != 0x0Au8 && (a + e)[i] != 0x0Du8 by {
            if i >= a.len() {
                assert((a + e)[i] == e[i - a.len()]);
            }
        }
    }
}

proof fn lemma_split_without_sep(s: Seq<char>, sep: char)
    requires
        forall|k: int| 0 <= k < s.len() ==> s[k] != sep,
    ensures
        split_on(s, sep) == seq![s],
    decreases s.len(),
{
    if s.len() == 0 {
        assert(s =~= Seq::<char>::empty());
    } else {
        lemma_split_without_sep(s.drop_last(), sep);
        assert(s.drop_last().push(s.last()) =~= s);
        assert(seq![s.drop_last()].update(0, s.drop_last().push(s.last())) =~= seq![s]);
    }
}

proof fn lemma_split_after_line(a: Seq<char>, b: Seq<char>, sep: char)
    requires
        forall|k: int| 0 <= k < a.len() ==> a[k] != sep,
    ensures
        split_on(a + seq![sep] + b, sep) == seq![a] + split_on(b, sep),
    decreases b.len(),
{
    let s = a + seq![sep] + b;
    if b.len() == 0 {
        assert(s.drop_last() =~= a);
        lemma_split_without_sep(a, sep);
        assert(seq![a] + split_on(b, sep) =~= seq![a].push(Seq::<char>::empty()));
    } else {
        lemma_split_after_line(a, b.drop_last(), sep);
        assert(s.drop_last() =~= a + seq![sep] + b.drop_last());
        lemma_split_nonempty(b.drop_last(), sep);
        let r = split_on(b.drop_last(), sep);
        let x = seq![a] + r;
        if b.last() == sep {
            assert(x.push(Seq::<char>::empty()) =~= seq![a] + r.push(Seq::<char>::empty()));
        } else {
            assert(x.update(x.len() - 1, x.last().push(b.last()))
                =~= seq![a] + r.update(r.len() - 1, r.last().push(b.last())));
        }
    }
}

/// What trashing writes into an item's sidecar reads back as the item's
/// origin: the first `Path=` line of the sidecar body decodes to the
/// origin, whatever the deletion date.
pub proof fn lemma_sidecar_roundtrip(origin: Seq<char>, deleted_at: Seq<char>)
    ensures
        origin_in(trash_info_text(origin, deleted_at)) == Some(origin),
{
    let bytes = percent_encode_bytes(encode_utf8(origin));
    let enc = percent_encoded(origin);
    lemma_encoded_has_no_line_breaks(encode_utf8(origin));
    assert forall|k: int| 0 <= k < enc.len() implies #[trigger] enc[k] != '\n' && enc[k] != '\r' by {
        assert(enc[k] == bytes[k] as char);
        assert(bytes[k] != 0x0Au8 && bytes[k] != 0x0Du8);
    }
    reveal_strlit("[Trash Info]\nPath=");
    reveal_strlit("\nDeletionDate=");
    reveal_strlit("\n");
    reveal_strlit("Path=");
    let head = "[Trash Info]\nPath="@;
    let a = head.take(12);
    let b = "Path="@ + enc;
    let c = "\nDeletionDate="@.skip(1) + deleted_at + "\n"@;
    let body = trash_info_text(origin, deleted_at);
    assert(body =~= a + seq!['\n'] + (b + seq!['\n'] + c));
    assert forall|k: int| 0 <= k < a.len() implies a[k] != '\n' by {}
    assert forall|k: int| 0 <= k < b.len() implies b[k] != '\n' by {
        if k >= 5 {
            assert(b[k] == enc[k - 5]);
        }
    }
    lemma_split_after_line(a, b + seq!['\n'] + c, '\n');
    lemma_split_after_line(b, c, '\n');
    lemma_split_nonempty(c, '\n');
    let parts = split_on(body, '\n');
    assert(parts =~= seq![a, b] + split_on(c, '\n'));
    let ls = lines_of(body);
    assert(parts[0] == a && parts[1] == b);
    assert(ls[0] == without_cr(a));
    assert(ls[1] == without_cr(b));
    assert(without_cr(a) == a);
    if enc.len() > 0 {
        assert(b.last() == enc.last());
    }
    assert(without_cr(b) == b);
    assert(b.take(5) =~= "Path="@);
    assert(b.skip(5) =~= enc);
    assert(a.take(5) != "Path="@) by {
        assert(a.take(5)[0] == '[');
    }
    let w: int = 1;
    assert(0 <= w < ls.len() && ls[w].len() >= 5 && ls[w].take(5) == "Path="@
        && forall|k: int| 0 <= k < w ==> !((#[trigger] ls[k]).len() >= 5 && ls[k].take(5) == "Path="@));
    let i = choose|i: int| 0 <= i < ls.len() && (#[trigger] ls[i]).len() >= 5 && ls[i].take(5) == "Path="@
        && forall|k: int| 0 <= k < i ==> !((#[trigger] ls[k]).len() >= 5 && ls[k].take(5) == "Path="@);
    assert(i == 1) by {
        if i > 1 {
            assert(!(ls[1].len() >= 5 && ls[1].take(5) == "Path="@));
        }
        if i == 0 {
            assert(ls[0].take(5) == a.take(5));
        }
    }
    lemma_percent_roundtrip(origin);
}

/// The directory `files_dir` names is the one `is_trash_files_dir`
/// recognises.
pub proof fn lemma_files_dir_recognised(env: TrashEnv)
    requires
        files_dir_in(env) is Some,
    ensures
        is_trash_files_dir_in(files_dir_in(env)->0, env),
{
}

proof fn lemma_decimal_nonempty(n: nat)
    ensures
        decimal(n).len() >= 1,
        n >= 10 ==> decimal(n).len() >= 2,
    decreases n,
{
    if n >= 10 {
        lemma_decimal_nonempty(n / 10);
    }
}

proof fn lemma_decimal_injective(m: nat, n: nat)
    requires
        decimal(m) == decimal(n),
    ensures
        m == n,
    decreases m + n,
{
    lemma_decimal_nonempty(m);
    lemma_decimal_nonempty(n);
    if m < 10 && n < 10 {
        assert(decimal(m)[0] == digit_char(m as int));
        assert(decimal(n)[0] == digit_char(n as int));
        assert(digit_char(m as int) as int == m + 48);
        assert(digit_char(n as int) as int == n + 48);
    } else if m >= 10 && n >= 10 {
        assert(decimal(m).last() == digit_char((m % 10) as int));
        assert(decimal(n).last() == digit_char((n % 10) as int));
        assert(digit_char((m % 10) as int) as int == m % 10 + 48);
        assert(digit_char((n % 10) as int) as int == n % 10 + 48);
        assert(m % 10 == n % 10);
        assert(decimal(m).drop_last() =~= decimal(m / 10));
        assert(decimal(n).drop_last() =~= decimal(n / 10));
        lemma_decimal_injective(m / 10, n / 10);
        assert(m == 10 * (m / 10) + m % 10) by (nonlinear_arith);
        assert(n == 10 * (n / 10) + n % 10) by (nonlinear_arith);
    } else {
        assert(decimal(m).len() != decimal(n).len());
    }
}

/// Different attempts reserve different trash names: the candidates for
/// attempts `m` and `n` of one name differ whenever `m` and `n` do.
pub proof fn lemma_candidates_distinct(name: Seq<char>, m: nat, n: nat)
    requires
        m >= 1,
        n >= 1,
        m != n,
    ensures
        candidate_name(name, m) != candidate_name(name, n),
{
    lemma_decimal_nonempty(m);
    lemma_decimal_nonempty(n);
    if m != 1 && n != 1 {
        if candidate_name(name, m) == candidate_name(name, n) {
            let a = name + seq!['.'];
            assert(candidate_name(name, m).skip(a.len() as int) =~= decimal(m));
            assert(candidate_name(name, n).skip(a.len() as int) =~= decimal(n));
            lemma_decimal_injective(m, n);
        }
    } else {
        assert(candidate_name(name, m).len() != candidate_name(name, n).len());
    }
}

} // verus!
