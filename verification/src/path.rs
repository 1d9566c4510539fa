//! Unix paths as plain text.
//!
//! A path is a `String`; its meaning is its list of components, exactly as
//! `std::path::Path::components` reads a Unix path: an optional root, then
//! the `/`-separated segments with empty segments and interior `.` dropped
//! (a leading `.` of a relative path is kept, as the current directory).

use vstd::prelude::*;
use crate::text::{chars_of, push_char};

verus! {

/// The pieces of `s` between occurrences of `sep` (always at least one).
pub open spec fn split_on(s: Seq<char>, sep: char) -> Seq<Seq<char>>
    decreases s.len(),
{
    if s.len() == 0 {
        seq![Seq::<char>::empty()]
    } else {
        let r = split_on(s.drop_last(), sep);
        if s.last() == sep {
            r.push(Seq::<char>::empty())
        } else {
            r.update(r.len() - 1, r.last().push(s.last()))
        }
    }
}

/// Whether the path starts at the root directory.
pub open spec fn is_absolute(p: Seq<char>) -> bool {
    p.len() > 0 && p[0] == '/'
}

/// A segment after the first one is a component unless it is empty or `.`.
pub open spec fn is_inner_component(x: Seq<char>) -> bool {
    x.len() > 0 && x != seq!['.']
}

/// The path's components after the root (if any), in order.
pub open spec fn components(p: Seq<char>) -> Seq<Seq<char>> {
    let raw = split_on(p, '/');
    let first = if raw[0].len() > 0 { seq![raw[0]] } else { Seq::<Seq<char>>::empty() };
    first + raw.drop_first().filter(|x: Seq<char>| is_inner_component(x))
}

/// Components joined by single separators.
pub open spec fn join_parts(parts: Seq<Seq<char>>) -> Seq<char>
    decreases parts.len(),
{
    if parts.len() == 0 {
        Seq::<char>::empty()
    } else if parts.len() == 1 {
        parts[0]
    } else {
        join_parts(parts.drop_last()) + seq!['/'] + parts.last()
    }
}

/// The path text `PathBuf` builds from a root flag and a list of components.
pub open spec fn render(absolute: bool, parts: Seq<Seq<char>>) -> Seq<char> {
    if absolute {
        seq!['/'] + join_parts(parts)
    } else {
        join_parts(parts)
    }
}

/// Two paths are the same path when they have the same root and components.
pub open spec fn same_path(a: Seq<char>, b: Seq<char>) -> bool {
    is_absolute(a) == is_absolute(b) && components(a) == components(b)
}

/// A component that names a file or directory (not `.` or `..`).
pub open spec fn is_normal(x: Seq<char>) -> bool {
    x != seq!['.'] && x != seq!['.', '.']
}

/// `Path::file_name`: the last component, when it is a normal one.
pub open spec fn file_name(p: Seq<char>) -> Option<Seq<char>> {
    let c = components(p);
    if c.len() > 0 && is_normal(c.last()) {
        Some(c.last())
    } else {
        None
    }
}

/// `Path::parent`: the path without its last component; none for the root
/// and for the empty path.
pub open spec fn parent(p: Seq<char>) -> Option<Seq<char>> {
    let c = components(p);
    if c.len() > 0 {
        Some(render(is_absolute(p), c.drop_last()))
    } else {
        None
    }
}

/// The view of a list of character vectors.
pub open spec fn parts_view(v: Seq<Vec<char>>) -> Seq<Seq<char>> {
    v.map_values(|x: Vec<char>| x@)
}

/// A path broken into its root flag and components.
pub struct PathParts {
    pub absolute: bool,
    pub parts: Vec<Vec<char>>,
}

pub proof fn lemma_split_nonempty(s: Seq<char>, sep: char)
    ensures
        split_on(s, sep).len() >= 1,
    decreases s.len(),
{
    if s.len() > 0 {
        lemma_split_nonempty(s.drop_last(), sep);
    }
}

/// The pieces of `p` between occurrences of `sep`.
pub fn split_chars(p: &Vec<char>, sep: char) -> (r: Vec<Vec<char>>)
    ensures
        parts_view(r@) == split_on(p@, sep),
{
    let mut segs: Vec<Vec<char>> = Vec::new();
    let mut cur: Vec<char> = Vec::new();
    let mut i: usize = 0;
    proof {
        assert(p@.subrange(0, 0) =~= Seq::<char>::empty());
        assert(parts_view(segs@).push(cur@) =~= split_on(Seq::<char>::empty(), sep));
    }
    while i < p.len()
        invariant
            i <= p@.len(),
            parts_view(segs@).push(cur@) == split_on(p@.subrange(0, i as int), sep),
        decreases p@.len() - i,
    {
        let c = p[i];
        proof {
            let pre = p@.subrange(0, i + 1);
            assert(pre.drop_last() =~= p@.subrange(0, i as int));
            assert(pre.last() == c);
            lemma_split_nonempty(p@.subrange(0, i as int), sep);
        }
        let ghost old_view = parts_view(segs@).push(cur@);
        if c == sep {
            let done = cur;
            segs.push(done);
            cur = Vec::new();
            proof {
                assert(parts_view(segs@).push(cur@) =~= old_view.push(Seq::<char>::empty()));
            }
        } else {
            cur.push(c);
            proof {
                assert(parts_view(segs@).push(cur@)
                    =~= old_view.update(old_view.len() - 1, old_view.last().push(c)));
            }
        }
        i = i + 1;
    }
    proof {
        assert(p@.subrange(0, p@.len() as int) =~= p@);
    }
    segs.push(cur);
    segs
}

/// A copy of a character vector.
pub fn copy_chars(v: &Vec<char>) -> (r: Vec<char>)
    ensures
        r@ == v@,
{
    let mut r: Vec<char> = Vec::new();
    let mut i: usize = 0;
    while i < v.len()
        invariant
            i <= v@.len(),
            r@ == v@.subrange(0, i as int),
        decreases v@.len() - i,
    {
        r.push(v[i]);
        i = i + 1;
    }
    assert(v@.subrange(0, v@.len() as int) =~= v@);
    r
}

fn is_dot(x: &Vec<char>) -> (r: bool)
    ensures
        r == (x@ == seq!['.']),
{
    if x.len() == 1 && x[0] == '.' {
        assert(x@ =~= seq!['.']);
        true
    } else {
        false
    }
}

/// The root flag and the components of a path.
pub fn path_parts(p: &str) -> (r: PathParts)
    ensures
        r.absolute == is_absolute(p@),
        parts_view(r.parts@) == components(p@),
{
    let cs = chars_of(p);
    let absolute = cs.len() > 0 && cs[0] == '/';
    let raw = split_chars(&cs, '/');
    let ghost rawv = split_on(p@, '/');
    let ghost pred = |x: Seq<char>| is_inner_component(x);
    proof {
        lemma_split_nonempty(p@, '/');
        assert(rawv[0] == raw@[0]@);
    }
    let mut parts: Vec<Vec<char>> = Vec::new();
    if raw[0].len() > 0 {
        parts.push(copy_chars(&raw[0]));
    }
    let ghost first = parts_view(parts@);
    proof {
        assert(rawv.subrange(1, 1) =~= Seq::<Seq<char>>::empty());
        reveal(Seq::filter);
        assert(parts_view(parts@) =~= first + rawv.subrange(1, 1).filter(pred));
    }
    let mut j: usize = 1;
    while j < raw.len()
        invariant
            1 <= j <= raw@.len(),
            raw@.len() == rawv.len(),
            parts_view(raw@) == rawv,
            parts_view(parts@) == first + rawv.subrange(1, j as int).filter(pred),
            pred == (|x: Seq<char>| is_inner_component(x)),
        decreases raw@.len() - j,
    {
        let ghost before = rawv.subrange(1, j as int);
        proof {
            reveal(Seq::filter);
            assert(rawv.subrange(1, j + 1).drop_last() =~= before);
            assert(rawv.subrange(1, j + 1).last() == raw@[j as int]@);
        }
        if raw[j].len() > 0 && !is_dot(&raw[j]) {
            let ghost old_parts = parts@;
            let piece = copy_chars(&raw[j]);
            parts.push(piece);
            proof {
                assert(parts_view(parts@) =~= parts_view(old_parts).push(raw@[j as int]@));
                assert(parts_view(parts@) =~= first + before.filter(pred).push(raw@[j as int]@));
            }
        }
        j = j + 1;
    }
    proof {
        assert(rawv.subrange(1, rawv.len() as int) =~= rawv.drop_first());
        assert(first =~= (if rawv[0].len() > 0 { seq![rawv[0]] } else { Seq::<Seq<char>>::empty() }));
    }
    PathParts { absolute, parts }
}

/// The text of a root flag and the first `k` of `parts`.
pub fn render_parts(absolute: bool, parts: &Vec<Vec<char>>, k: usize) -> (r: String)
    requires
        k <= parts@.len(),
    ensures
        r@ == render(absolute, parts_view(parts@).take(k as int)),
{
    let mut out = String::new();
    if absolute {
        push_char(&mut out, '/');
    }
    let ghost prefix = out@;
    let mut i: usize = 0;
    proof {
        assert(parts_view(parts@).take(0) =~= Seq::<Seq<char>>::empty());
        assert(out@ =~= prefix + join_parts(parts_view(parts@).take(0)));
    }
    while i < k
        invariant
            i <= k <= parts@.len(),
            prefix == (if absolute { seq!['/'] } else { Seq::<char>::empty() }),
            out@ == prefix + join_parts(parts_view(parts@).take(i as int)),
        decreases k - i,
    {
        let ghost before = out@;
        if i > 0 {
            push_char(&mut out, '/');
        }
        let part = &parts[i];
        let mut c: usize = 0;
        let ghost mid = out@;
        while c < part.len()
            invariant
                c <= part@.len(),
                out@ == mid + part@.subrange(0, c as int),
            decreases part@.len() - c,
        {
            push_char(&mut out, part[c]);
            c = c + 1;
        }
        proof {
            let t = parts_view(parts@).take(i + 1);
            assert(t.drop_last() =~= parts_view(parts@).take(i as int));
            assert(t.last() == part@);
            assert(part@.subrange(0, part@.len() as int) =~= part@);
            if i == 0 {
                assert(t =~= seq![part@]);
            }
            assert(out@ =~= prefix + join_parts(t));
        }
        i = i + 1;
    }
    out
}

fn same_chars(a: &Vec<char>, b: &Vec<char>) -> (r: bool)
    ensures
        r == (a@ == b@),
{
    if a.len() != b.len() {
        return false;
    }
    let mut i: usize = 0;
    while i < a.len()
        invariant
            a@.len() == b@.len(),
            i <= a@.len(),
            forall|k: int| 0 <= k < i ==> a@[k] == b@[k],
        decreases a@.len() - i,
    {
        if a[i] != b[i] {
            return false;
        }
        i = i + 1;
    }
    assert(a@ =~= b@);
    true
}

/// Whether two paths name the same path: same root, same components
/// (`Path`'s `==`).
pub fn paths_equal(a: &str, b: &str) -> (r: bool)
    ensures
        r == same_path(a@, b@),
{
    let pa = path_parts(a);
    let pb = path_parts(b);
    if pa.absolute != pb.absolute || pa.parts.len() != pb.parts.len() {
        proof {
            assert(parts_view(pa.parts@).len() == pa.parts@.len());
            assert(parts_view(pb.parts@).len() == pb.parts@.len());
        }
        return false;
    }
    let mut i: usize = 0;
    while i < pa.parts.len()
        invariant
            pa.parts@.len() == pb.parts@.len(),
            pa.absolute == is_absolute(a@),
            pb.absolute == is_absolute(b@),
            pa.absolute == pb.absolute,
            parts_view(pa.parts@) == components(a@),
            parts_view(pb.parts@) == components(b@),
            i <= pa.parts@.len(),
            forall|k: int| 0 <= k < i ==> pa.parts@[k]@ == pb.parts@[k]@,
        decreases pa.parts@.len() - i,
    {
        if !same_chars(&pa.parts[i], &pb.parts[i]) {
            proof {
                assert(parts_view(pa.parts@)[i as int] != parts_view(pb.parts@)[i as int]);
                assert(parts_view(pa.parts@) != parts_view(pb.parts@));
            }
            return false;
        }
        i = i + 1;
    }
    proof {
        assert(parts_view(pa.parts@) =~= parts_view(pb.parts@));
    }
    true
}

} // verus!

verus! {

/// `PathBuf::push`: an absolute `rel` replaces `base`; otherwise `rel` is
/// appended, with a separator unless `base` is empty or already ends in one.
pub open spec fn joined(base: Seq<char>, rel: Seq<char>) -> Seq<char> {
    if is_absolute(rel) {
        rel
    } else if base.len() == 0 || base.last() == '/' {
        base + rel
    } else {
        base + seq!['/'] + rel
    }
}

/// `base` joined with `rel` (`Path::join`).
pub fn path_join(base: &str, rel: &str) -> (r: String)
    ensures
        r@ == joined(base@, rel@),
{
    let rel_abs = rel.unicode_len() > 0 && rel.get_char(0) == '/';
    if rel_abs {
        return rel.to_owned();
    }
    let n = base.unicode_len();
    let mut r = String::from_str(base);
    if n > 0 && base.get_char(n - 1) != '/' {
        push_char(&mut r, '/');
    }
    r.append(rel);
    r
}

/// The last component of a path when it is a normal one (`Path::file_name`).
pub fn path_file_name(p: &str) -> (r: Option<String>)
    ensures
        match r {
            Some(s) => file_name(p@) == Some(s@),
            None => file_name(p@) is None,
        },
{
    let pp = path_parts(p);
    let n = pp.parts.len();
    if n == 0 {
        return None;
    }
    let last = &pp.parts[n - 1];
    proof {
        assert(parts_view(pp.parts@).last() == last@);
    }
    let is_dot = last.len() == 1 && last[0] == '.';
    let is_dotdot = last.len() == 2 && last[0] == '.' && last[1] == '.';
    proof {
        if last@.len() == 1 && last@[0] == '.' {
            assert(last@ =~= seq!['.']);
        }
        if last@.len() == 2 && last@[0] == '.' && last@[1] == '.' {
            assert(last@ =~= seq!['.', '.']);
        }
    }
    if is_dot || is_dotdot {
        None
    } else {
        Some(crate::text::string_from_chars(last.as_slice()))
    }
}

/// The path without its last component (`Path::parent`).
pub fn path_parent(p: &str) -> (r: Option<String>)
    ensures
        match r {
            Some(s) => parent(p@) == Some(s@),
            None => parent(p@) is None,
        },
{
    let pp = path_parts(p);
    let n = pp.parts.len();
    if n == 0 {
        return None;
    }
    let s = render_parts(pp.absolute, &pp.parts, n - 1);
    proof {
        assert(parts_view(pp.parts@).take(n - 1) =~= parts_view(pp.parts@).drop_last());
    }
    Some(s)
}

} // verus!
