//! Character-level helpers shared by the pages and services: moving between
//! `String` and `Vec<char>`, and the std string operations whose results the
//! rest of the library reasons about.

use vstd::prelude::*;

verus! {

/// `String::push`: appends one character to the end of the string.
#[verifier::external_body]
pub(crate) fn push_char(s: &mut String, c: char)
    ensures
        final(s)@ == old(s)@.push(c),
{
    s.push(c);
}

/// The characters of `s`, in order.
pub fn chars_of(s: &str) -> (r: Vec<char>)
    ensures
        r@ == s@,
{
    let n = s.unicode_len();
    let mut r: Vec<char> = Vec::new();
    let mut i: usize = 0;
    while i < n
        invariant
            n == s@.len(),
            i <= n,
            r@ == s@.subrange(0, i as int),
        decreases n - i,
    {
        let c = s.get_char(i);
        r.push(c);
        i = i + 1;
    }
    r
}

/// A string holding exactly the characters of `cs`.
pub fn string_from_chars(cs: &[char]) -> (r: String)
    ensures
        r@ == cs@,
{
    let mut r = String::new();
    let mut i: usize = 0;
    while i < cs.len()
        invariant
            i <= cs@.len(),
            r@ == cs@.subrange(0, i as int),
        decreases cs@.len() - i,
    {
        push_char(&mut r, cs[i]);
        i = i + 1;
    }
    r
}

} // verus!

verus! {

/// Unicode lower-casing of a string (`str::to_lowercase`).
pub uninterp spec fn lowercase(s: Seq<char>) -> Seq<char>;

/// `str::to_lowercase`: the string with every character replaced by its
/// Unicode lower-case mapping.
#[verifier::external_body]
pub(crate) fn to_lowercase(s: &str) -> (r: String)
    ensures
        r@ == lowercase(s@),
{
    s.to_lowercase()
}

/// Whether `needle` occurs in `hay` as a contiguous run.
pub open spec fn contains_seq(hay: Seq<char>, needle: Seq<char>) -> bool {
    exists|i: int| 0 <= i && i + needle.len() <= hay.len() && #[trigger] hay.subrange(i, i + needle.len()) == needle
}

/// Whether `needle` occurs at position `at` of `hay`.
pub(crate) fn occurs_at(hay: &Vec<char>, needle: &Vec<char>, at: usize) -> (r: bool)
    requires
        at + needle@.len() <= hay@.len(),
    ensures
        r == (hay@.subrange(at as int, at + needle@.len()) == needle@),
{
    let mut k: usize = 0;
    let hay_len = hay.len();
    while k < needle.len()
        invariant
            hay_len == hay@.len(),
            at + needle@.len() <= hay@.len(),
            k <= needle@.len(),
            forall|m: int| 0 <= m < k ==> hay@[at + m] == needle@[m],
        decreases needle@.len() - k,
    {
        assert(at + k < hay@.len());
        if hay[at + k] != needle[k] {
            proof {
                assert(hay@.subrange(at as int, at + needle@.len())[k as int] != needle@[k as int]);
            }
            return false;
        }
        k = k + 1;
    }
    assert(hay@.subrange(at as int, at + needle@.len()) =~= needle@);
    true
}

/// Substring search (`str::contains` with a string pattern).
pub fn contains_chars(hay: &Vec<char>, needle: &Vec<char>) -> (r: bool)
    ensures
        r == contains_seq(hay@, needle@),
{
    if needle.len() > hay.len() {
        return false;
    }
    let last = hay.len() - needle.len();
    let mut at: usize = 0;
    while at <= last
        invariant
            last + needle@.len() == hay@.len(),
            at <= last + 1,
            forall|i: int| 0 <= i < at ==> #[trigger] hay@.subrange(i, i + needle@.len()) != needle@,
        decreases last + 1 - at,
    {
        if occurs_at(hay, needle, at) {
            return true;
        }
        if at == last {
            return false;
        }
        at = at + 1;
    }
    false
}

/// Whether the string starts with `c`.
pub fn starts_with_char(s: &str, c: char) -> (r: bool)
    ensures
        r == (s@.len() > 0 && s@[0] == c),
{
    s.unicode_len() > 0 && s.get_char(0) == c
}

/// A copy of a string.
pub fn copy_string(s: &String) -> (r: String)
    ensures
        r == *s,
        r@ == s@,
{
    s.clone()
}

} // verus!

verus! {

/// The text after the last `sep` in `s` (all of `s` when `sep` does not
/// occur) — what `str::rsplit(sep).next()` yields.
pub open spec fn after_last(s: Seq<char>, sep: char) -> Seq<char> {
    crate::path::split_on(s, sep).last()
}

/// Whether `s` is one of the strings in `list`.
pub open spec fn one_of(s: Seq<char>, list: Seq<&str>) -> bool {
    exists|i: int| 0 <= i < list.len() && s == #[trigger] list[i]@
}

/// Whether two character vectors hold the same characters.
pub fn same_chars(a: &Vec<char>, b: &Vec<char>) -> (r: bool)
    ensures
        r == (a@ == b@),
{
    if a.len() != b.len() {
        return false;
    }
    let mut i: usize = 0;
    while i < a.len()
        invariant
            a@.len() == b@.len(),
            i <= a@.len(),
            forall|k: int| 0 <= k < i ==> a@[k] == b@[k],
        decreases a@.len() - i,
    {
        if a[i] != b[i] {
            return false;
        }
        i = i + 1;
    }
    assert(a@ =~= b@);
    true
}

/// Whether the characters `s` spell one of the strings in `list`.
pub fn is_one_of(s: &Vec<char>, list: &[&str]) -> (r: bool)
    ensures
        r == one_of(s@, list@),
{
    let mut i: usize = 0;
    while i < list.len()
        invariant
            i <= list@.len(),
            forall|k: int| 0 <= k < i ==> s@ != #[trigger] list@[k]@,
        decreases list@.len() - i,
    {
        let candidate = chars_of(list[i]);
        if same_chars(s, &candidate) {
            return true;
        }
        i = i + 1;
    }
    false
}

#[verifier::spinoff_prover]
#[verifier::rlimit(40)]
proof fn lemma_split_last(s: Seq<char>, sep: char)
    ensures
        crate::path::split_on(s, sep).len() >= 1,
        (forall|k: int| 0 <= k < s.len() ==> s[k] != sep) ==> after_last(s, sep) == s,
        forall|j: int| 0 <= j < s.len() && s[j] == sep && (forall|k: int| j < k < s.len() ==> s[k] != sep)
            ==> after_last(s, sep) == s.subrange(j + 1, s.len() as int),
    decreases s.len(),
{
    if s.len() == 0 {
        assert(crate::path::split_on(s, sep) =~= seq![Seq::<char>::empty()]);
    } else {
        let t = s.drop_last();
        lemma_split_last(t, sep);
        if s.last() == sep {
            assert forall|j: int| 0 <= j < s.len() && s[j] == sep && (forall|k: int| j < k < s.len() ==> s[k] != sep)
                implies after_last(s, sep) == s.subrange(j + 1, s.len() as int) by {
                assert(j == s.len() - 1);
                assert(s.subrange(j + 1, s.len() as int) =~= Seq::<char>::empty());
            }
        } else {
            if forall|k: int| 0 <= k < s.len() ==> s[k] != sep {
                assert forall|k: int| 0 <= k < t.len() implies t[k] != sep by {
                    assert(t[k] == s[k]);
                }
                assert(after_last(t, sep) == t);
                assert(s =~= t.push(s.last()));
            }
            assert forall|j: int| 0 <= j < s.len() && s[j] == sep && (forall|k: int| j < k < s.len() ==> s[k] != sep)
                implies after_last(s, sep) == s.subrange(j + 1, s.len() as int) by {
                assert(j < t.len());
                assert(t[j] == sep);
                assert forall|k: int| j < k < t.len() implies t[k] != sep by {
                    assert(t[k] == s[k]);
                }
                assert(after_last(t, sep) == t.subrange(j + 1, t.len() as int));
                assert(s.subrange(j + 1, s.len() as int) =~= t.subrange(j + 1, t.len() as int).push(s.last()));
            }
        }
    }
}

/// The characters after the last `sep` (all of them when there is none).
pub fn chars_after_last(s: &Vec<char>, sep: char) -> (r: Vec<char>)
    ensures
        r@ == after_last(s@, sep),
{
    let mut i: usize = s.len();
    while i > 0
        invariant
            i <= s@.len(),
            forall|k: int| i <= k < s@.len() ==> s@[k] != sep,
        ensures
            i <= s@.len(),
            forall|k: int| i <= k < s@.len() ==> s@[k] != sep,
            i == 0 || s@[i - 1] == sep,
        decreases i,
    {
        if s[i - 1] == sep {
            break;
        }
        i = i - 1;
    }
    proof {
        lemma_split_last(s@, sep);
    }
    let mut r: Vec<char> = Vec::new();
    let start = if i > 0 && s[i - 1] == sep { i } else { 0 };
    proof {
        if i == 0 {
            assert(s@.subrange(0, s@.len() as int) =~= s@);
        }
    }
    let mut k = start;
    while k < s.len()
        invariant
            start <= k <= s@.len(),
            r@ == s@.subrange(start as int, k as int),
        decreases s@.len() - k,
    {
        r.push(s[k]);
        k = k + 1;
    }
    proof {
        if start > 0 {
            let j = start - 1;
            assert(s@[j] == sep);
            assert(forall|m: int| j < m < s@.len() ==> s@[m] != sep);
        } else {
            assert(forall|m: int| 0 <= m < s@.len() ==> s@[m] != sep);
            assert(s@.subrange(0, s@.len() as int) =~= s@);
        }
    }
    r
}

} // verus!

verus! {

/// Lexicographic order on character sequences, by code point — the order
/// `str`'s `<` gives (UTF-8 preserves code point order byte by byte).
pub open spec fn lex_lt(a: Seq<char>, b: Seq<char>) -> bool
    decreases a.len(),
{
    if a.len() == 0 {
        b.len() > 0
    } else if b.len() == 0 {
        false
    } else if a[0] != b[0] {
        a[0] < b[0]
    } else {
        lex_lt(a.drop_first(), b.drop_first())
    }
}

/// Lexicographic order decides at the first difference: when `a` and `b`
/// agree on their first `k` characters and then `a` ends while `b` goes on,
/// or `a`'s next character has the smaller code point, `a` comes first.
pub proof fn lemma_lex_first_difference(a: Seq<char>, b: Seq<char>, k: int)
    requires
        0 <= k <= a.len(),
        k < b.len(),
        a.take(k) == b.take(k),
        k == a.len() || a[k] < b[k],
    ensures
        lex_lt(a, b),
    decreases k,
{
    if k > 0 {
        assert(a[0] == a.take(k)[0] && b[0] == b.take(k)[0]);
        assert(a.drop_first().take(k - 1) =~= a.take(k).drop_first());
        assert(b.drop_first().take(k - 1) =~= b.take(k).drop_first());
        if k < a.len() {
            assert(a.drop_first()[k - 1] == a[k]);
        }
        assert(b.drop_first()[k - 1] == b[k]);
        lemma_lex_first_difference(a.drop_first(), b.drop_first(), k - 1);
    }
}

pub proof fn lemma_lex_irreflexive(a: Seq<char>)
    ensures
        !lex_lt(a, a),
    decreases a.len(),
{
    if a.len() > 0 {
        lemma_lex_irreflexive(a.drop_first());
    }
}

pub proof fn lemma_lex_transitive(a: Seq<char>, b: Seq<char>, c: Seq<char>)
    requires
        lex_lt(a, b),
        lex_lt(b, c),
    ensures
        lex_lt(a, c),
    decreases a.len(),
{
    if a.len() > 0 && b.len() > 0 && c.len() > 0 {
        if a[0] == b[0] && b[0] == c[0] {
            lemma_lex_transitive(a.drop_first(), b.drop_first(), c.drop_first());
        }
    }
}

pub proof fn lemma_lex_total(a: Seq<char>, b: Seq<char>)
    ensures
        lex_lt(a, b) || lex_lt(b, a) || a == b,
    decreases a.len(),
{
    if a.len() > 0 && b.len() > 0 && a[0] == b[0] {
        lemma_lex_total(a.drop_first(), b.drop_first());
        if a.drop_first() == b.drop_first() {
            assert(a =~= seq![a[0]] + a.drop_first());
            assert(b =~= seq![b[0]] + b.drop_first());
        }
    } else if a.len() == 0 && b.len() == 0 {
        assert(a =~= b);
    }
}

/// `lex_lt` on character vectors.
pub fn lex_less(a: &Vec<char>, b: &Vec<char>) -> (r: bool)
    ensures
        r == lex_lt(a@, b@),
{
    let mut i: usize = 0;
    while i < a.len() && i < b.len()
        invariant
            i <= a@.len(),
            i <= b@.len(),
            a@.subrange(0, i as int) == b@.subrange(0, i as int),
        decreases a@.len() - i,
    {
        if a[i] != b[i] {
            proof {
                lemma_lex_prefix(a@, b@, i as int);
            }
            return a[i] < b[i];
        }
        proof {
            assert(a@.subrange(0, i + 1) =~= a@.subrange(0, i as int).push(a@[i as int]));
            assert(b@.subrange(0, i + 1) =~= b@.subrange(0, i as int).push(b@[i as int]));
        }
        i = i + 1;
    }
    proof {
        lemma_lex_prefix(a@, b@, i as int);
    }
    i == a.len() && i < b.len()
}

proof fn lemma_lex_prefix(a: Seq<char>, b: Seq<char>, i: int)
    requires
        0 <= i <= a.len(),
        i <= b.len(),
        a.subrange(0, i) == b.subrange(0, i),
    ensures
        i < a.len() && i < b.len() && a[i] != b[i] ==> lex_lt(a, b) == (a[i] < b[i]),
        (i == a.len() || i == b.len()) ==> lex_lt(a, b) == (i == a.len() && i < b.len()),
    decreases i,
{
    if i > 0 {
        assert(a[0] == a.subrange(0, i)[0]);
        assert(b[0] == b.subrange(0, i)[0]);
        assert(a.drop_first().subrange(0, i - 1) =~= a.subrange(0, i).drop_first());
        assert(b.drop_first().subrange(0, i - 1) =~= b.subrange(0, i).drop_first());
        lemma_lex_prefix(a.drop_first(), b.drop_first(), i - 1);
    }
}

} // verus!

verus! {

/// ASCII lower-casing of one character (`char::to_ascii_lowercase`).
pub open spec fn ascii_lower_char(c: char) -> char {
    if 'A' <= c <= 'Z' { ((c as u32) + 32) as char } else { c }
}

/// ASCII lower-casing (`str::to_ascii_lowercase`): `A`-`Z` become `a`-`z`,
/// every other character is kept.
pub open spec fn ascii_lower(s: Seq<char>) -> Seq<char> {
    s.map_values(|c: char| ascii_lower_char(c))
}

/// Whether `c` occurs in `s`.
pub open spec fn has_char(s: Seq<char>, c: char) -> bool {
    exists|k: int| 0 <= k < s.len() && s[k] == c
}

/// The lower-cased extension of a file name, as `rsplit_once('.')` finds
/// it: the text after the last `.`, provided there is a `.` and something
/// before it (so `.bashrc` has none).
pub open spec fn extension(name: Seq<char>) -> Option<Seq<char>> {
    let ext = after_last(name, '.');
    if has_char(name, '.') && ext.len() + 1 < name.len() {
        Some(ascii_lower(ext))
    } else {
        None
    }
}

pub fn to_ascii_lower(s: &Vec<char>) -> (r: Vec<char>)
    ensures
        r@ == ascii_lower(s@),
{
    let mut r: Vec<char> = Vec::new();
    let mut i: usize = 0;
    while i < s.len()
        invariant
            i <= s@.len(),
            r@ == ascii_lower(s@.subrange(0, i as int)),
        decreases s@.len() - i,
    {
        let c = s[i];
        let lc = if c >= 'A' && c <= 'Z' { ((c as u8) + 32) as char } else { c };
        proof {
            if 'A' <= c <= 'Z' {
                assert(lc == ((c as u32) + 32) as char);
            }
            assert(ascii_lower(s@.subrange(0, i + 1)) =~= ascii_lower(s@.subrange(0, i as int)).push(lc));
        }
        r.push(lc);
        i = i + 1;
    }
    proof {
        assert(s@.subrange(0, s@.len() as int) =~= s@);
    }
    r
}

fn has_char_exec(s: &Vec<char>, c: char) -> (r: bool)
    ensures
        r == has_char(s@, c),
{
    let mut i: usize = 0;
    while i < s.len()
        invariant
            i <= s@.len(),
            forall|k: int| 0 <= k < i ==> s@[k] != c,
        decreases s@.len() - i,
    {
        if s[i] == c {
            return true;
        }
        i = i + 1;
    }
    false
}

/// The lower-cased extension of a file name (see `extension`).
pub fn extension_of(name: &str) -> (r: Option<Vec<char>>)
    ensures
        match r {
            Some(v) => extension(name@) == Some(v@),
            None => extension(name@) is None,
        },
{
    let cs = chars_of(name);
    let ext = chars_after_last(&cs, '.');
    if has_char_exec(&cs, '.') && ext.len() < cs.len() && ext.len() + 1 < cs.len() {
        Some(to_ascii_lower(&ext))
    } else {
        None
    }
}

} // verus!

verus! {

/// The concatenation of two strings.
pub fn concat_str(a: &str, b: &str) -> (r: String)
    ensures
        r@ == a@ + b@,
{
    let mut r = String::from_str(a);
    r.append(b);
    r
}

/// The decimal digit character for a value below 10.
pub open spec fn digit_char(d: int) -> char {
    (d + 48) as char
}

/// The decimal numeral of a natural number (no sign, no leading zeros).
pub open spec fn decimal(n: nat) -> Seq<char>
    decreases n,
{
    if n < 10 {
        seq![digit_char(n as int)]
    } else {
        decimal(n / 10).push(digit_char((n % 10) as int))
    }
}

/// The decimal numeral of `n` (what `format!("{n}")` prints).
pub fn decimal_string(n: u32) -> (r: String)
    ensures
        r@ == decimal(n as nat),
{
    let mut rev: Vec<char> = Vec::new();
    let mut m: u32 = n;
    // rev holds the digits of n % 10^k, least significant first, and
    // decimal(n) == decimal(m) + reverse(rev) once m's own digits are placed.
    let ghost mut acc: Seq<char> = Seq::empty();
    loop
        invariant_except_break
            decimal(n as nat) == decimal(m as nat) + acc,
        invariant
            rev@ == acc.reverse(),
        ensures
            decimal(n as nat) == acc,
            rev@ == acc.reverse(),
        decreases m,
    {
        let d = m % 10;
        let c = ((d as u8) + 48) as char;
        if m < 10 {
            proof {
                assert(decimal(m as nat) == seq![c]);
                assert(rev@.push(c) =~= (seq![c] + acc).reverse());
                assert(decimal(n as nat) =~= seq![c] + acc);
            }
            rev.push(c);
            proof {
                acc = seq![c] + acc;
            }
            break;
        }
        proof {
            assert(decimal(m as nat) == decimal((m / 10) as nat).push(c));
            assert(rev@.push(c) =~= (seq![c] + acc).reverse());
            assert(decimal(n as nat) =~= decimal((m / 10) as nat) + (seq![c] + acc));
        }
        rev.push(c);
        proof {
            acc = seq![c] + acc;
        }
        m = m / 10;
    }
    let mut out: Vec<char> = Vec::new();
    let mut i: usize = rev.len();
    while i > 0
        invariant
            i <= rev@.len(),
            rev@ == acc.reverse(),
            out@ == acc.subrange(0, (rev@.len() - i) as int),
        decreases i,
    {
        proof {
            assert(acc.subrange(0, (rev@.len() - i + 1) as int)
                =~= acc.subrange(0, (rev@.len() - i) as int).push(rev@[i - 1]));
        }
        out.push(rev[i - 1]);
        i = i - 1;
    }
    proof {
        assert(acc.subrange(0, rev@.len() as int) =~= acc);
        assert(decimal(n as nat) =~= acc);
    }
    string_from_chars(out.as_slice())
}

} // verus!

verus! {

/// A line without a trailing carriage return.
pub open spec fn without_cr(l: Seq<char>) -> Seq<char> {
    if l.len() > 0 && l.last() == '\r' { l.drop_last() } else { l }
}

/// The lines of a text as `str::lines` yields them: split at `\n`, a
/// `\r` before a `\n` dropped, no empty line after a final `\n`.
pub open spec fn lines_of(s: Seq<char>) -> Seq<Seq<char>> {
    let parts = crate::path::split_on(s, '\n');
    let ended = parts.drop_last().map_values(|l: Seq<char>| without_cr(l));
    if parts.last().len() == 0 { ended } else { ended.push(parts.last()) }
}

/// The line at index `i` of a text split at `\n`: the piece without a
/// trailing `\r`, except for the last piece, which is a line only when it
/// is not empty.
pub(crate) fn line_at(parts: &Vec<Vec<char>>, i: usize) -> (r: Option<Vec<char>>)
    requires
        i < parts@.len(),
    ensures
        match r {
            Some(l) => {
                &&& i + 1 < parts@.len() ==> l@ == without_cr(parts@[i as int]@)
                &&& i + 1 == parts@.len() ==> l@ == parts@[i as int]@ && l@.len() > 0
            },
            None => i + 1 == parts@.len() && parts@[i as int]@.len() == 0,
        },
{
    let p = &parts[i];
    let n = p.len();
    if i == parts.len() - 1 {
        if n == 0 {
            return None;
        }
        return Some(crate::path::copy_chars(p));
    }
    let keep = if n > 0 && p[n - 1] == '\r' { n - 1 } else { n };
    let mut l: Vec<char> = Vec::new();
    let mut k: usize = 0;
    while k < keep
        invariant
            keep <= p@.len(),
            k <= keep,
            l@ == p@.take(k as int),
        decreases keep - k,
    {
        l.push(p[k]);
        k = k + 1;
    }
    proof {
        if n > 0 && p@[n - 1] == '\r' {
            assert(p@.take(keep as int) =~= p@.drop_last());
        } else {
            assert(p@.take(keep as int) =~= p@);
        }
    }
    Some(l)
}

/// The lines of `s` (`str::lines`).
pub fn text_lines(s: &str) -> (r: Vec<Vec<char>>)
    ensures
        crate::path::parts_view(r@) == lines_of(s@),
{
    let cs = chars_of(s);
    let parts = crate::path::split_chars(&cs, '\n');
    let ghost pv = crate::path::parts_view(parts@);
    proof {
        crate::path::lemma_split_nonempty(s@, '\n');
    }
    let mut out: Vec<Vec<char>> = Vec::new();
    let mut i: usize = 0;
    while i < parts.len()
        invariant
            i <= parts@.len(),
            pv == crate::path::parts_view(parts@),
            pv == crate::path::split_on(s@, '\n'),
            pv.len() >= 1,
            i < pv.len() ==> crate::path::parts_view(out@) == pv.take(i as int).map_values(|l: Seq<char>| without_cr(l)),
            i == pv.len() ==> crate::path::parts_view(out@) == lines_of(s@),
        decreases parts@.len() - i,
    {
        let ghost before = crate::path::parts_view(out@);
        match line_at(&parts, i) {
            Some(l) => {
                out.push(l);
            },
            None => {},
        }
        proof {
            let after = crate::path::parts_view(out@);
            if i + 1 < pv.len() {
                assert(pv.take(i + 1).map_values(|l: Seq<char>| without_cr(l))
                    =~= pv.take(i as int).map_values(|l: Seq<char>| without_cr(l)).push(without_cr(pv[i as int])));
                assert(after =~= before.push(without_cr(pv[i as int])));
            } else {
                assert(pv.drop_last() =~= pv.take(i as int));
                if pv.last().len() == 0 {
                    assert(after =~= before);
                } else {
                    assert(after =~= before.push(pv.last()));
                }
            }
        }
        i = i + 1;
    }
    out
}

} // verus!
