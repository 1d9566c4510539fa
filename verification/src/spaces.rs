//! Whitespace handling on character sequences: the Unicode `White_Space`
//! set that `char::is_whitespace` tests, trimming (`str::trim`), splitting
//! into words (`str::split_whitespace`), prefixes, and deleting every
//! occurrence of a pattern (`str::replace` with an empty replacement).

use vstd::prelude::*;
use crate::text::{chars_of, occurs_at, string_from_chars};

verus! {

/// The Unicode `White_Space` code points.
pub open spec fn is_space(c: char) -> bool {
    let n = c as u32;
    ||| 0x09 <= n <= 0x0d
    ||| n == 0x20
    ||| n == 0x85
    ||| n == 0xa0
    ||| n == 0x1680
    ||| 0x2000 <= n <= 0x200a
    ||| n == 0x2028
    ||| n == 0x2029
    ||| n == 0x202f
    ||| n == 0x205f
    ||| n == 0x3000
}

/// `s` without its leading whitespace.
pub open spec fn trim_start(s: Seq<char>) -> Seq<char>
    decreases s.len(),
{
    if s.len() > 0 && is_space(s[0]) { trim_start(s.drop_first()) } else { s }
}

/// `s` without its trailing whitespace.
pub open spec fn trim_end(s: Seq<char>) -> Seq<char>
    decreases s.len(),
{
    if s.len() > 0 && is_space(s.last()) { trim_end(s.drop_last()) } else { s }
}

/// `s` without leading and trailing whitespace.
pub open spec fn trimmed(s: Seq<char>) -> Seq<char> {
    trim_end(trim_start(s))
}

/// The maximal runs of non-whitespace in `s[i..]`, `cur` being the run in
/// progress before `i`.
pub open spec fn words_from(s: Seq<char>, i: int, cur: Seq<char>) -> Seq<Seq<char>>
    decreases s.len() - i,
{
    if i >= s.len() {
        if cur.len() > 0 { seq![cur] } else { Seq::empty() }
    } else if is_space(s[i]) {
        (if cur.len() > 0 { seq![cur] } else { Seq::empty() }) + words_from(s, i + 1, Seq::empty())
    } else {
        words_from(s, i + 1, cur.push(s[i]))
    }
}

/// The words of `s`: its maximal runs of non-whitespace, in order.
pub open spec fn words(s: Seq<char>) -> Seq<Seq<char>> {
    words_from(s, 0, Seq::empty())
}

/// Whether `s` starts with `prefix`.
pub open spec fn has_prefix(s: Seq<char>, prefix: Seq<char>) -> bool {
    s.len() >= prefix.len() && s.take(prefix.len() as int) == prefix
}

/// `s` with every occurrence of `pat` deleted, scanning left to right
/// without overlaps.
pub open spec fn without_all(s: Seq<char>, pat: Seq<char>) -> Seq<char>
    decreases s.len(),
{
    if pat.len() == 0 || s.len() < pat.len() {
        s
    } else if s.take(pat.len() as int) == pat {
        without_all(s.skip(pat.len() as int), pat)
    } else {
        seq![s[0]] + without_all(s.drop_first(), pat)
    }
}

/// `char::is_whitespace`.
pub fn is_space_char(c: char) -> (r: bool)
    ensures
        r == is_space(c),
{
    let n = c as u32;
    (0x09 <= n && n <= 0x0d) || n == 0x20 || n == 0x85 || n == 0xa0 || n == 0x1680
        || (0x2000 <= n && n <= 0x200a) || n == 0x2028 || n == 0x2029 || n == 0x202f
        || n == 0x205f || n == 0x3000
}

/// The characters `s[i..j]`.
pub fn slice_chars(s: &Vec<char>, i: usize, j: usize) -> (r: Vec<char>)
    requires
        i <= j <= s@.len(),
    ensures
        r@ == s@.subrange(i as int, j as int),
{
    let mut r: Vec<char> = Vec::new();
    let mut k: usize = i;
    while k < j
        invariant
            i <= k <= j,
            j <= s@.len(),
            r@ == s@.subrange(i as int, k as int),
        decreases j - k,
    {
        r.push(s[k]);
        k = k + 1;
    }
    r
}

/// `str::trim` on characters.
pub fn trim_chars(s: &Vec<char>) -> (r: Vec<char>)
    ensures
        r@ == trimmed(s@),
{
    let n = s.len();
    let mut i: usize = 0;
    proof {
        assert(s@.skip(0) =~= s@);
    }
    while i < n && is_space_char(s[i])
        invariant
            n == s@.len(),
            i <= n,
            trim_start(s@) == trim_start(s@.skip(i as int)),
        decreases n - i,
    {
        proof {
            assert(s@.skip(i as int).drop_first() =~= s@.skip(i + 1));
        }
        i = i + 1;
    }
    proof {
        if i == n {
            assert(s@.skip(i as int) =~= Seq::<char>::empty());
        }
        assert(trim_start(s@) == s@.skip(i as int));
        assert(s@.skip(i as int) =~= s@.subrange(i as int, n as int));
    }
    let mut j: usize = n;
    while j > i && is_space_char(s[j - 1])
        invariant
            n == s@.len(),
            i <= j <= n,
            trim_end(s@.subrange(i as int, n as int)) == trim_end(s@.subrange(i as int, j as int)),
        decreases j - i,
    {
        proof {
            let t = s@.subrange(i as int, j as int);
            assert(t.last() == s@[j - 1]);
            assert(t.drop_last() =~= s@.subrange(i as int, j - 1));
        }
        j = j - 1;
    }
    proof {
        let t = s@.subrange(i as int, j as int);
        if j > i {
            assert(t.last() == s@[j - 1]);
        }
        assert(trim_end(t) == t);
    }
    slice_chars(s, i, j)
}

/// `str::trim`.
pub fn trim_str(s: &str) -> (r: String)
    ensures
        r@ == trimmed(s@),
{
    let cs = chars_of(s);
    let t = trim_chars(&cs);
    string_from_chars(t.as_slice())
}

/// Whether `s` starts with `prefix` (`str::starts_with`).
pub fn starts_with_chars(s: &Vec<char>, prefix: &Vec<char>) -> (r: bool)
    ensures
        r == has_prefix(s@, prefix@),
{
    if prefix.len() > s.len() {
        return false;
    }
    let r = occurs_at(s, prefix, 0);
    proof {
        assert(s@.subrange(0, prefix@.len() as int) =~= s@.take(prefix@.len() as int));
    }
    r
}

/// `str::split_whitespace`, collected.
pub fn split_words(s: &Vec<char>) -> (r: Vec<Vec<char>>)
    ensures
        r@.len() == words(s@).len(),
        forall|k: int| 0 <= k < r@.len() ==> (#[trigger] r@[k])@ == words(s@)[k],
{
    let mut out: Vec<Vec<char>> = Vec::new();
    let mut cur: Vec<char> = Vec::new();
    let mut i: usize = 0;
    let ghost done: Seq<Seq<char>> = Seq::empty();
    while i < s.len()
        invariant
            i <= s@.len(),
            out@.len() == done.len(),
            forall|k: int| 0 <= k < out@.len() ==> (#[trigger] out@[k])@ == done[k],
            words(s@) == done + words_from(s@, i as int, cur@),
        decreases s@.len() - i,
    {
        let c = s[i];
        if is_space_char(c) {
            proof {
                assert(words_from(s@, i as int, cur@)
                    == (if cur@.len() > 0 { seq![cur@] } else { Seq::empty() }) + words_from(s@, i + 1, Seq::empty()));
            }
            if cur.len() > 0 {
                let w = cur;
                proof {
                    assert(done + (seq![w@] + words_from(s@, i + 1, Seq::empty()))
                        =~= done.push(w@) + words_from(s@, i + 1, Seq::empty()));
                    done = done.push(w@);
                }
                out.push(w);
            } else {
                proof {
                    assert(Seq::<Seq<char>>::empty() + words_from(s@, i + 1, Seq::empty())
                        =~= words_from(s@, i + 1, Seq::empty()));
                }
            }
            cur = Vec::new();
            proof {
                assert(cur@ =~= Seq::<char>::empty());
            }
        } else {
            cur.push(c);
        }
        i = i + 1;
    }
    if cur.len() > 0 {
        proof {
            assert(done + seq![cur@] =~= done.push(cur@));
            done = done.push(cur@);
        }
        out.push(cur);
    } else {
        proof {
            assert(done + Seq::<Seq<char>>::empty() =~= done);
        }
    }
    out
}

/// `s` with every occurrence of `pat` removed (`str::replace(pat, "")`).
pub fn remove_all(s: &Vec<char>, pat: &Vec<char>) -> (r: Vec<char>)
    ensures
        r@ == without_all(s@, pat@),
{
    let n = s.len();
    let m = pat.len();
    if m == 0 {
        return slice_chars(s, 0, n);
    }
    let mut out: Vec<char> = Vec::new();
    let mut i: usize = 0;
    proof {
        assert(s@.skip(0) =~= s@);
        assert(out@ + s@ =~= s@);
    }
    while i < n
        invariant
            n == s@.len(),
            m == pat@.len(),
            m > 0,
            i <= n,
            without_all(s@, pat@) == out@ + without_all(s@.skip(i as int), pat@),
        decreases n - i,
    {
        let t = Ghost(s@.skip(i as int));
        if n - i >= m && occurs_at(s, pat, i) {
            proof {
                assert(t@.take(m as int) =~= s@.subrange(i as int, i + m));
                assert(t@.skip(m as int) =~= s@.skip(i + m));
            }
            i = i + m;
        } else {
            proof {
                if n - i >= m {
                    assert(t@.take(m as int) =~= s@.subrange(i as int, i + m));
                    assert(t@.drop_first() =~= s@.skip(i + 1));
                    assert(out@ + (seq![s@[i as int]] + without_all(s@.skip(i + 1), pat@))
                        =~= out@.push(s@[i as int]) + without_all(s@.skip(i + 1), pat@));
                } else {
                    assert(without_all(t@, pat@) == t@);
                    assert(s@.skip(i + 1).len() < m);
                    assert(without_all(s@.skip(i + 1), pat@) == s@.skip(i + 1));
                    assert(t@ =~= seq![s@[i as int]] + s@.skip(i + 1));
                    assert(out@ + t@ =~= out@.push(s@[i as int]) + s@.skip(i + 1));
                }
            }
            out.push(s[i]);
            i = i + 1;
        }
    }
    proof {
        assert(s@.skip(n as int) =~= Seq::<char>::empty());
        assert(out@ + Seq::<char>::empty() =~= out@);
    }
    out
}

proof fn lemma_trim_start_cut(s: Seq<char>) -> (i: int)
    ensures
        0 <= i <= s.len(),
        trim_start(s) == s.skip(i),
        forall|k: int| 0 <= k < i ==> is_space(#[trigger] s[k]),
        i < s.len() ==> !is_space(s[i]),
    decreases s.len(),
{
    if s.len() > 0 && is_space(s[0]) {
        let j = lemma_trim_start_cut(s.drop_first());
        assert(s.drop_first().skip(j) =~= s.skip(j + 1));
        assert forall|k: int| 0 <= k < j + 1 implies is_space(#[trigger] s[k]) by {
            if k > 0 {
                assert(s[k] == s.drop_first()[k - 1]);
            }
        }
        j + 1
    } else {
        assert(s.skip(0) =~= s);
        0
    }
}

proof fn lemma_trim_end_cut(s: Seq<char>) -> (j: int)
    ensures
        0 <= j <= s.len(),
        trim_end(s) == s.take(j),
        forall|k: int| j <= k < s.len() ==> is_space(#[trigger] s[k]),
        j > 0 ==> !is_space(s[j - 1]),
    decreases s.len(),
{
    if s.len() > 0 && is_space(s.last()) {
        let j = lemma_trim_end_cut(s.drop_last());
        assert(s.drop_last().take(j) =~= s.take(j));
        assert forall|k: int| j <= k < s.len() implies is_space(#[trigger] s[k]) by {
            if k < s.len() - 1 {
                assert(s[k] == s.drop_last()[k]);
            }
        }
        j
    } else {
        assert(s.take(s.len() as int) =~= s);
        s.len() as int
    }
}

/// Trimming cuts whitespace off both ends and nothing else: the result is
/// a contiguous part of `s` that neither starts nor ends with whitespace,
/// and everything cut off before and after it is whitespace.
pub proof fn lemma_trimmed_cuts_whitespace(s: Seq<char>)
    ensures
        exists|i: int, j: int| {
            &&& 0 <= i <= j <= s.len()
            &&& trimmed(s) == s.subrange(i, j)
            &&& forall|k: int| 0 <= k < i ==> is_space(#[trigger] s[k])
            &&& forall|k: int| j <= k < s.len() ==> is_space(#[trigger] s[k])
        },
        trimmed(s).len() > 0 ==> !is_space(trimmed(s)[0]) && !is_space(trimmed(s).last()),
{
    let i = lemma_trim_start_cut(s);
    let t = s.skip(i);
    let j = lemma_trim_end_cut(t);
    assert(trimmed(s) == t.take(j));
    assert(t.take(j) =~= s.subrange(i, i + j));
    assert forall|k: int| i + j <= k < s.len() implies is_space(#[trigger] s[k]) by {
        assert(s[k] == t[k - i]);
    }
    if j > 0 {
        assert(trimmed(s)[0] == s[i]);
        assert(trimmed(s).last() == t[j - 1]);
    }
    assert(0 <= i <= i + j <= s.len() && trimmed(s) == s.subrange(i, i + j)
        && (forall|k: int| 0 <= k < i ==> is_space(#[trigger] s[k]))
        && (forall|k: int| i + j <= k < s.len() ==> is_space(#[trigger] s[k])));
}

} // verus!
