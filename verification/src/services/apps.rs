//! Opening files with applications: the MIME type `xdg-mime` reports, the
//! user's associations in `~/.config/cce/mime.kdl`, the handler a `.desktop`
//! entry names, the command line that launches it, and where the last
//! visited directory is remembered.
//!
//! Running `xdg-mime`, reading files and spawning processes are done by the
//! application around the library; these functions take what those produce.

use vstd::prelude::*;
use crate::path::{joined, parts_view, path_join};
use crate::services::trash::{opt_view, string_from_utf8_lossy, utf8_lossy};
use crate::spaces::{has_prefix, remove_all, slice_chars, split_words, starts_with_chars, trim_chars, trim_str, trimmed, without_all, words};
use crate::text::{chars_of, lines_of, string_from_chars, text_lines};

verus! {

// ── Command output ──────────────────────────────────────────────────

/// What a query command printed, as text: its standard output decoded
/// lossily and trimmed, when the command succeeded and printed something.
pub open spec fn output_text(success: bool, stdout: Seq<u8>) -> Option<Seq<char>> {
    let t = trimmed(utf8_lossy(stdout));
    if success && t.len() > 0 { Some(t) } else { None }
}

/// The answer of `xdg-mime query filetype <path>` (a MIME type) or of
/// `xdg-mime query default <mime>` (a `.desktop` file name), from the
/// command's exit status and standard output.
pub fn command_output_text(success: bool, stdout: &Vec<u8>) -> (r: Option<String>)
    ensures
        opt_view(r) == output_text(success, stdout@),
{
    if !success {
        return None;
    }
    let text = string_from_utf8_lossy(stdout.as_slice());
    let t = trim_str(text.as_str());
    if t.unicode_len() > 0 { Some(t) } else { None }
}

// ── Desktop entries ─────────────────────────────────────────────────

/// An `Exec=` value without the desktop-entry field codes, each removed
/// everywhere in turn.
pub open spec fn strip_field_codes(s: Seq<char>) -> Seq<char> {
    let s = without_all(s, "%f"@);
    let s = without_all(s, "%F"@);
    let s = without_all(s, "%u"@);
    let s = without_all(s, "%U"@);
    let s = without_all(s, "%d"@);
    let s = without_all(s, "%D"@);
    let s = without_all(s, "%n"@);
    let s = without_all(s, "%N"@);
    let s = without_all(s, "%i"@);
    let s = without_all(s, "%c"@);
    let s = without_all(s, "%k"@);
    without_all(s, "%v"@)
}

/// The `Name=` and `Exec=` values of a desktop entry's lines: the first of
/// each, read from the trimmed line; the command without its field codes.
pub open spec fn desktop_fields(ls: Seq<Seq<char>>) -> (Option<Seq<char>>, Option<Seq<char>>)
    decreases ls.len(),
{
    if ls.len() == 0 {
        (None, None)
    } else {
        let (n, e) = desktop_fields(ls.drop_last());
        let t = trimmed(ls.last());
        if n is None && has_prefix(t, "Name="@) {
            (Some(trimmed(t.skip(5))), e)
        } else if e is None && has_prefix(t, "Exec="@) {
            (n, Some(trimmed(strip_field_codes(trimmed(t.skip(5))))))
        } else {
            (n, e)
        }
    }
}

/// Whether `s` ends with `suffix`.
pub open spec fn has_suffix(s: Seq<char>, suffix: Seq<char>) -> bool {
    s.len() >= suffix.len() && s.skip(s.len() - suffix.len()) == suffix
}

/// A `.desktop` file name without that suffix.
pub open spec fn desktop_stem(file_name: Seq<char>) -> Seq<char> {
    if has_suffix(file_name, ".desktop"@) {
        file_name.take(file_name.len() - ".desktop"@.len())
    } else {
        file_name
    }
}

/// The (name, command) of the application a desktop entry describes: both
/// fields when present; without a name, the file name stands for it; no
/// application without a command.
pub open spec fn desktop_application(content: Seq<char>, file_name: Seq<char>)
    -> Option<(Seq<char>, Seq<char>)>
{
    match desktop_fields(lines_of(content)) {
        (Some(n), Some(e)) => Some((n, e)),
        (None, Some(e)) => Some((desktop_stem(file_name), e)),
        _ => None,
    }
}

fn strip_field_codes_exec(s: &Vec<char>) -> (r: Vec<char>)
    ensures
        r@ == strip_field_codes(s@),
{
    let s = remove_all(s, &chars_of("%f"));
    let s = remove_all(&s, &chars_of("%F"));
    let s = remove_all(&s, &chars_of("%u"));
    let s = remove_all(&s, &chars_of("%U"));
    let s = remove_all(&s, &chars_of("%d"));
    let s = remove_all(&s, &chars_of("%D"));
    let s = remove_all(&s, &chars_of("%n"));
    let s = remove_all(&s, &chars_of("%N"));
    let s = remove_all(&s, &chars_of("%i"));
    let s = remove_all(&s, &chars_of("%c"));
    let s = remove_all(&s, &chars_of("%k"));
    remove_all(&s, &chars_of("%v"))
}

fn value_after_key(t: &Vec<char>) -> (r: Vec<char>)
    requires
        t@.len() >= 5,
    ensures
        r@ == trimmed(t@.skip(5)),
{
    let rest = slice_chars(t, 5, t.len());
    proof {
        assert(rest@ =~= t@.skip(5));
    }
    trim_chars(&rest)
}

fn desktop_stem_of(file_name: &str) -> (r: String)
    ensures
        r@ == desktop_stem(file_name@),
{
    let cs = chars_of(file_name);
    let suffix = chars_of(".desktop");
    let n = cs.len();
    let m = suffix.len();
    if n >= m && crate::text::occurs_at(&cs, &suffix, n - m) {
        proof {
            assert(cs@.subrange(n - m, n as int) =~= cs@.skip(n - m));
        }
        let stem = slice_chars(&cs, 0, n - m);
        proof {
            assert(stem@ =~= cs@.take(n - m));
        }
        string_from_chars(stem.as_slice())
    } else {
        proof {
            if n >= m {
                assert(cs@.subrange(n - m, n as int) =~= cs@.skip(n - m));
            }
        }
        string_from_chars(cs.as_slice())
    }
}

/// The application a desktop entry names (see `desktop_application`).
pub fn parse_desktop_entry(content: &str, file_name: &str) -> (r: Option<(String, String)>)
    ensures
        match r {
            Some((n, e)) => desktop_application(content@, file_name@) == Some((n@, e@)),
            None => desktop_application(content@, file_name@) is None,
        },
{
    let ls = text_lines(content);
    let name_key = chars_of("Name=");
    let exec_key = chars_of("Exec=");
    proof {
        reveal_strlit("Name=");
        reveal_strlit("Exec=");
    }
    let mut name: Option<Vec<char>> = None;
    let mut exec: Option<Vec<char>> = None;
    let mut i: usize = 0;
    while i < ls.len()
        invariant
            i <= ls@.len(),
            parts_view(ls@) == lines_of(content@),
            name_key@ == "Name="@,
            exec_key@ == "Exec="@,
            "Name="@.len() == 5,
            "Exec="@.len() == 5,
            desktop_fields(parts_view(ls@).take(i as int)) == (
                match name { Some(v) => Some(v@), None => None::<Seq<char>> },
                match exec { Some(v) => Some(v@), None => None::<Seq<char>> },
            ),
        decreases ls@.len() - i,
    {
        let t = trim_chars(&ls[i]);
        proof {
            let pv = parts_view(ls@);
            assert(pv.take(i + 1).drop_last() =~= pv.take(i as int));
            assert(pv.take(i + 1).last() == ls@[i as int]@);
        }
        if name.is_none() && starts_with_chars(&t, &name_key) {
            name = Some(value_after_key(&t));
        } else if exec.is_none() && starts_with_chars(&t, &exec_key) {
            let v = value_after_key(&t);
            let stripped = strip_field_codes_exec(&v);
            exec = Some(trim_chars(&stripped));
        }
        i = i + 1;
    }
    proof {
        assert(parts_view(ls@).take(ls@.len() as int) =~= parts_view(ls@));
    }
    match (name, exec) {
        (Some(n), Some(e)) => Some((string_from_chars(n.as_slice()), string_from_chars(e.as_slice()))),
        (None, Some(e)) => Some((desktop_stem_of(file_name), string_from_chars(e.as_slice()))),
        _ => None,
    }
}

/// Where a `.desktop` file is looked for, in order: the user's
/// applications, then the system's, then the local system's.
pub open spec fn desktop_candidates_of(home: Seq<char>, file_name: Seq<char>) -> Seq<Seq<char>> {
    seq![
        joined(joined(home, ".local/share/applications"@), file_name),
        joined("/usr/share/applications"@, file_name),
        joined("/usr/local/share/applications"@, file_name),
    ]
}

/// The paths to try for a `.desktop` file, in order (`home` is `$HOME`, or
/// empty when it is unset).
pub fn desktop_file_candidates(home: &str, file_name: &str) -> (r: Vec<String>)
    ensures
        r@.map_values(|p: String| p@) == desktop_candidates_of(home@, file_name@),
{
    let user = path_join(home, ".local/share/applications");
    let mut r: Vec<String> = Vec::new();
    r.push(path_join(user.as_str(), file_name));
    r.push(path_join("/usr/share/applications", file_name));
    r.push(path_join("/usr/local/share/applications", file_name));
    proof {
        assert(r@.map_values(|p: String| p@) =~= desktop_candidates_of(home@, file_name@));
    }
    r
}

// ── Launching ───────────────────────────────────────────────────────

/// The program and arguments that open `path` with the command line `cmd`:
/// the command's words, the path appended; nothing for a blank command.
pub open spec fn launch_of(cmd: Seq<char>, path: Seq<char>) -> Option<(Seq<char>, Seq<Seq<char>>)> {
    let ws = words(cmd);
    if ws.len() == 0 { None } else { Some((ws[0], ws.drop_first().push(path))) }
}

/// The program to spawn and its arguments, to open `path` with `cmd`.
pub fn launch_command(cmd: &str, path: &str) -> (r: Option<(String, Vec<String>)>)
    ensures
        match r {
            Some((p, args)) => {
                &&& launch_of(cmd@, path@) matches Some((lp, largs))
                &&& p@ == lp
                &&& args@.len() == largs.len()
                &&& forall|k: int| 0 <= k < args@.len() ==> (#[trigger] args@[k])@ == largs[k]
            },
            None => launch_of(cmd@, path@) is None,
        },
{
    let cs = chars_of(cmd);
    let ws = split_words(&cs);
    if ws.len() == 0 {
        return None;
    }
    let program = string_from_chars(ws[0].as_slice());
    let ghost largs = words(cmd@).drop_first().push(path@);
    let mut args: Vec<String> = Vec::new();
    let mut k: usize = 1;
    while k < ws.len()
        invariant
            1 <= k <= ws@.len(),
            ws@.len() == words(cmd@).len(),
            forall|j: int| 0 <= j < ws@.len() ==> (#[trigger] ws@[j])@ == words(cmd@)[j],
            largs == words(cmd@).drop_first().push(path@),
            args@.len() == k - 1,
            forall|j: int| 0 <= j < args@.len() ==> (#[trigger] args@[j])@ == largs[j],
        decreases ws@.len() - k,
    {
        let a = string_from_chars(ws[k].as_slice());
        proof {
            assert(ws@[k as int]@ == largs[k - 1]);
        }
        args.push(a);
        k = k + 1;
    }
    args.push(path.to_owned());
    Some((program, args))
}

// ── Associations from mime.kdl ──────────────────────────────────────

/// Pairs `(key, value)` as a map: a later pair for a key replaces an
/// earlier one.
pub open spec fn pairs_map(s: Seq<(Seq<char>, Seq<char>)>) -> Map<Seq<char>, Seq<char>>
    decreases s.len(),
{
    if s.len() == 0 {
        Map::empty()
    } else {
        pairs_map(s.drop_last()).insert(s.last().0, s.last().1)
    }
}

/// The user's MIME associations: MIME type → command line, in the order
/// the file gives them.
pub struct Associations {
    pub pairs: Vec<(String, String)>,
}

impl Associations {
    /// The pairs as character sequences.
    pub open spec fn pair_seq(&self) -> Seq<(Seq<char>, Seq<char>)> {
        self.pairs@.map_values(|p: (String, String)| (p.0@, p.1@))
    }

    /// The association map.
    pub open spec fn map(&self) -> Map<Seq<char>, Seq<char>> {
        pairs_map(self.pair_seq())
    }

    /// The command associated with `mime` (`HashMap::get`).
    pub fn command_for(&self, mime: &str) -> (r: Option<String>)
        ensures
            match r {
                Some(c) => self.map().contains_key(mime@) && self.map()[mime@] == c@,
                None => !self.map().contains_key(mime@),
            },
    {
        let key = chars_of(mime);
        let mut i: usize = self.pairs.len();
        let ghost ps = self.pair_seq();
        proof {
            assert(ps.take(ps.len() as int) =~= ps);
        }
        while i > 0
            invariant
                i <= self.pairs@.len(),
                ps == self.pair_seq(),
                key@ == mime@,
                pairs_map(ps).contains_key(mime@) == pairs_map(ps.take(i as int)).contains_key(mime@),
                pairs_map(ps).contains_key(mime@) ==> pairs_map(ps)[mime@] == pairs_map(ps.take(i as int))[mime@],
            decreases i,
        {
            let k = &self.pairs[i - 1].0;
            let kc = chars_of(k.as_str());
            proof {
                assert(ps.take(i as int).drop_last() =~= ps.take(i - 1));
                assert(ps.take(i as int).last() == ps[i - 1]);
                assert(ps[i - 1] == (self.pairs@[i - 1].0@, self.pairs@[i - 1].1@));
            }
            if crate::text::same_chars(&kc, &key) {
                return Some(self.pairs[i - 1].1.clone());
            }
            i = i - 1;
        }
        proof {
            assert(ps.take(0) =~= Seq::<(Seq<char>, Seq<char>)>::empty());
        }
        None
    }
}

/// What the logic reads of one child node of `associations`: its name,
/// and for the MIME type and the command, whether the positional argument
/// (0, resp. 1) and the property (`mime`, resp. `exec`) are there, with the
/// text of each that is a string.
pub struct KdlChild {
    pub name: String,
    pub mime_arg: Option<Option<String>>,
    pub mime_prop: Option<Option<String>>,
    pub exec_arg: Option<Option<String>>,
    pub exec_prop: Option<Option<String>>,
}

/// A child node's entries as mathematical values.
pub struct KdlChildView {
    pub name: Seq<char>,
    pub mime_arg: Option<Option<Seq<char>>>,
    pub mime_prop: Option<Option<Seq<char>>>,
    pub exec_arg: Option<Option<Seq<char>>>,
    pub exec_prop: Option<Option<Seq<char>>>,
}

/// A looked-up entry as a value: absent, present but not a string, or a
/// string's text.
pub open spec fn entry_view(o: Option<Option<String>>) -> Option<Option<Seq<char>>> {
    match o {
        Some(Some(s)) => Some(Some(s@)),
        Some(None) => Some(None),
        None => None,
    }
}

impl View for KdlChild {
    type V = KdlChildView;

    open spec fn view(&self) -> KdlChildView {
        KdlChildView {
            name: self.name@,
            mime_arg: entry_view(self.mime_arg),
            mime_prop: entry_view(self.mime_prop),
            exec_arg: entry_view(self.exec_arg),
            exec_prop: entry_view(self.exec_prop),
        }
    }
}

/// The views of a list of child nodes.
pub open spec fn child_views(cs: Seq<KdlChild>) -> Seq<KdlChildView> {
    cs.map_values(|c: KdlChild| c@)
}

/// The text an argument-or-property lookup yields: the argument when it is
/// there, else the property; text only when the value is a string.
pub open spec fn entry_text(arg: Option<Option<Seq<char>>>, prop: Option<Option<Seq<char>>>) -> Option<Seq<char>> {
    let found = match arg {
        Some(v) => Some(v),
        None => prop,
    };
    match found {
        Some(Some(s)) => Some(s),
        _ => None,
    }
}

/// The association a child node gives: an `association` node with a MIME
/// type and a command.
pub open spec fn association_of(c: KdlChildView) -> Option<(Seq<char>, Seq<char>)> {
    if c.name == "association"@ {
        match (entry_text(c.mime_arg, c.mime_prop), entry_text(c.exec_arg, c.exec_prop)) {
            (Some(m), Some(e)) => Some((m, e)),
            _ => None,
        }
    } else {
        None
    }
}

/// The associations the children give, in order.
pub open spec fn association_pairs(cs: Seq<KdlChildView>) -> Seq<(Seq<char>, Seq<char>)>
    decreases cs.len(),
{
    if cs.len() == 0 {
        Seq::empty()
    } else {
        let p = association_pairs(cs.drop_last());
        match association_of(cs.last()) {
            Some(x) => p.push(x),
            None => p,
        }
    }
}

fn entry_text_of(arg: &Option<Option<String>>, prop: &Option<Option<String>>) -> (r: Option<String>)
    ensures
        opt_view(r) == entry_text(entry_view(*arg), entry_view(*prop)),
{
    let found = match arg {
        Some(v) => v,
        None => match prop {
            Some(v) => v,
            None => return None,
        },
    };
    match found {
        Some(s) => Some(s.clone()),
        None => None,
    }
}

/// The associations of the `associations` node's children; none when no
/// child gives one.
pub fn associations_from(children: &Vec<KdlChild>) -> (r: Option<Associations>)
    ensures
        match r {
            Some(a) => a.pair_seq() == association_pairs(child_views(children@)) && a.pair_seq().len() > 0,
            None => association_pairs(child_views(children@)).len() == 0,
        },
{
    let mut pairs: Vec<(String, String)> = Vec::new();
    let mut i: usize = 0;
    while i < children.len()
        invariant
            i <= children@.len(),
            pairs@.map_values(|p: (String, String)| (p.0@, p.1@)) == association_pairs(child_views(children@).take(i as int)),
        decreases children@.len() - i,
    {
        let c = &children[i];
        proof {
            let cv = child_views(children@);
            assert(cv.take(i + 1).drop_last() =~= cv.take(i as int));
            assert(cv.take(i + 1).last() == children@[i as int]@);
        }
        let is_assoc = {
            let name = chars_of(c.name.as_str());
            let key = chars_of("association");
            crate::text::same_chars(&name, &key)
        };
        if is_assoc {
            let m = entry_text_of(&c.mime_arg, &c.mime_prop);
            let e = entry_text_of(&c.exec_arg, &c.exec_prop);
            match (m, e) {
                (Some(m), Some(e)) => {
                    let ghost before = pairs@;
                    pairs.push((m, e));
                    proof {
                        assert(pairs@.map_values(|p: (String, String)| (p.0@, p.1@))
                            =~= before.map_values(|p: (String, String)| (p.0@, p.1@)).push((pairs@.last().0@, pairs@.last().1@)));
                    }
                },
                _ => {},
            }
        }
        i = i + 1;
    }
    proof {
        assert(child_views(children@).take(children@.len() as int) =~= child_views(children@));
    }
    if pairs.len() == 0 {
        None
    } else {
        Some(Associations { pairs })
    }
}

/// The child nodes of a named top-level node, each as its name and the
/// entries looked up in it (arguments by index, properties by name).
pub type KdlRows = Vec<(String, Vec<Option<Option<String>>>, Vec<Option<Option<String>>>)>;

/// One child row as values.
pub open spec fn row_view(r: (String, Vec<Option<Option<String>>>, Vec<Option<Option<String>>>))
    -> (Seq<char>, Seq<Option<Option<Seq<char>>>>, Seq<Option<Option<Seq<char>>>>)
{
    (r.0@, r.1@.map_values(|o: Option<Option<String>>| entry_view(o)), r.2@.map_values(|o: Option<Option<String>>| entry_view(o)))
}

/// The rows as values.
pub open spec fn rows_view(o: Option<KdlRows>)
    -> Option<Seq<(Seq<char>, Seq<Option<Option<Seq<char>>>>, Seq<Option<Option<Seq<char>>>>)>>
{
    match o {
        Some(v) => Some(v@.map_values(|r: (String, Vec<Option<Option<String>>>, Vec<Option<Option<String>>>)| row_view(r))),
        None => None,
    }
}

/// What kdl reads from a text: for the first top-level node named `node`
/// of the document the text parses to, its children in order, each as its
/// name and, for every index in `args` and every name in `props`, whether
/// that argument (resp. the last property of that name) is there and the
/// text of it when it is a string. None when the text does not parse or
/// has no such node.
pub uninterp spec fn kdl_node_children(text: Seq<char>, node: Seq<char>, args: Seq<usize>, props: Seq<Seq<char>>)
    -> Option<Seq<(Seq<char>, Seq<Option<Option<Seq<char>>>>, Seq<Option<Option<Seq<char>>>>)>>;

/// `KdlDocument::parse` (through `str::parse`), `KdlDocument::get`,
/// `KdlNode::iter_children`, `KdlNode::name` with `KdlIdentifier::value`,
/// `KdlNode::get` and `KdlValue::as_string`: the children of the node
/// named `node` in the document `text` parses to, read as plain values.
/// The result is named by `kdl_node_children`; each row has one lookup per
/// requested index and per requested property, in order.
#[verifier::external_body]
fn kdl_node_children_of(text: &str, node: &str, args: &Vec<usize>, props: &Vec<String>) -> (r: Option<KdlRows>)
    ensures
        rows_view(r) == kdl_node_children(text@, node@, args@, props@.map_values(|p: String| p@)),
        r matches Some(rows) ==> forall|k: int| 0 <= k < rows@.len()
            ==> (#[trigger] rows@[k]).1@.len() == args@.len() && rows@[k].2@.len() == props@.len(),
{
    let doc = text.parse::<kdl::KdlDocument>().ok()?;
    let text_of = |v: &kdl::KdlValue| v.as_string().map(|s| s.to_string());
    Some(doc.get(node)?.iter_children().map(|c| (
        c.name().value().to_string(),
        args.iter().map(|i| c.get(*i).map(text_of)).collect(),
        props.iter().map(|p| c.get(p.as_str()).map(text_of)).collect(),
    )).collect())
}

/// The child a row stands for: the MIME type at argument 0 or property
/// `mime`, the command at argument 1 or property `exec`.
pub open spec fn row_child(row: (Seq<char>, Seq<Option<Option<Seq<char>>>>, Seq<Option<Option<Seq<char>>>>)) -> KdlChildView {
    KdlChildView {
        name: row.0,
        mime_arg: row.1[0],
        exec_arg: row.1[1],
        mime_prop: row.2[0],
        exec_prop: row.2[1],
    }
}

fn copy_entry(o: &Option<Option<String>>) -> (r: Option<Option<String>>)
    ensures
        entry_view(r) == entry_view(*o),
{
    match o {
        Some(Some(s)) => Some(Some(s.clone())),
        Some(None) => Some(None),
        None => None,
    }
}

/// The associations a `mime.kdl` text gives: the `association` children of
/// its `associations` node that carry a MIME type (argument 0, else
/// property `mime`) and a command (argument 1, else property `exec`). None
/// when the text is not KDL, has no such node, or no child gives one.
pub fn load_kdl_associations(content: &str) -> (r: Option<Associations>)
    ensures
        match kdl_node_children(content@, "associations"@, seq![0usize, 1usize], seq!["mime"@, "exec"@]) {
            None => r is None,
            Some(rows) => match r {
                Some(a) => a.pair_seq() == association_pairs(rows.map_values(|row| row_child(row)))
                    && a.pair_seq().len() > 0,
                None => association_pairs(rows.map_values(|row| row_child(row))).len() == 0,
            },
        },
{
    let mut args: Vec<usize> = Vec::new();
    args.push(0);
    args.push(1);
    let mut props: Vec<String> = Vec::new();
    props.push(String::from_str("mime"));
    props.push(String::from_str("exec"));
    proof {
        assert(args@ =~= seq![0usize, 1usize]);
        assert(props@.map_values(|p: String| p@) =~= seq!["mime"@, "exec"@]);
    }
    let rows = match kdl_node_children_of(content, "associations", &args, &props) {
        Some(rows) => rows,
        None => return None,
    };
    let ghost rv = rows@.map_values(|r: (String, Vec<Option<Option<String>>>, Vec<Option<Option<String>>>)| row_view(r));
    let mut children: Vec<KdlChild> = Vec::new();
    let mut i: usize = 0;
    while i < rows.len()
        invariant
            i <= rows@.len(),
            rv == rows@.map_values(|r: (String, Vec<Option<Option<String>>>, Vec<Option<Option<String>>>)| row_view(r)),
            forall|k: int| 0 <= k < rows@.len() ==> (#[trigger] rows@[k]).1@.len() == 2 && rows@[k].2@.len() == 2,
            child_views(children@) == rv.take(i as int).map_values(|row| row_child(row)),
        decreases rows@.len() - i,
    {
        let row = &rows[i];
        let c = KdlChild {
            name: row.0.clone(),
            mime_arg: copy_entry(&row.1[0]),
            exec_arg: copy_entry(&row.1[1]),
            mime_prop: copy_entry(&row.2[0]),
            exec_prop: copy_entry(&row.2[1]),
        };
        let ghost before = children@;
        children.push(c);
        proof {
            assert(rv[i as int] == row_view(rows@[i as int]));
            assert(c@ == row_child(rv[i as int]));
            assert(child_views(children@) =~= child_views(before).push(c@));
            assert(rv.take(i + 1).map_values(|row| row_child(row))
                =~= rv.take(i as int).map_values(|row| row_child(row)).push(row_child(rv[i as int])));
        }
        i = i + 1;
    }
    proof {
        assert(rv.take(rows@.len() as int) =~= rv);
    }
    associations_from(&children)
}

/// The (name, command) of the default application for `mime` when the
/// user's associations name one: the command stands for both.
pub fn associated_application(assoc: &Associations, mime: &str) -> (r: Option<(String, String)>)
    ensures
        match r {
            Some((n, c)) => assoc.map().contains_key(mime@) && n@ == assoc.map()[mime@] && c@ == assoc.map()[mime@],
            None => !assoc.map().contains_key(mime@),
        },
{
    match assoc.command_for(mime) {
        Some(c) => Some((c.clone(), c)),
        None => None,
    }
}

// ── The remembered directory ────────────────────────────────────────

/// The configuration directory: `$XDG_CONFIG_HOME` when set and not empty,
/// else `$HOME/.config`.
pub open spec fn config_dir_of(xdg_config_home: Option<Seq<char>>, home: Option<Seq<char>>) -> Option<Seq<char>> {
    match xdg_config_home {
        Some(x) if x.len() > 0 => Some(x),
        _ => match home {
            Some(h) => Some(joined(h, ".config"@)),
            None => None,
        },
    }
}

/// The file that remembers the last directory:
/// `<config>/cce/cce-files/cce-files-last-dir.txt`.
pub open spec fn last_dir_file_of(xdg_config_home: Option<Seq<char>>, home: Option<Seq<char>>) -> Option<Seq<char>> {
    match config_dir_of(xdg_config_home, home) {
        Some(c) => Some(joined(joined(joined(c, "cce"@), "cce-files"@), "cce-files-last-dir.txt"@)),
        None => None,
    }
}

/// The path of the file that remembers the last directory, from the values
/// of `XDG_CONFIG_HOME` and `HOME` (None when a variable is unset).
pub fn last_dir_file(xdg_config_home: &Option<String>, home: &Option<String>) -> (r: Option<String>)
    ensures
        opt_view(r) == last_dir_file_of(opt_view(*xdg_config_home), opt_view(*home)),
{
    let config = match xdg_config_home {
        Some(x) if x.unicode_len() > 0 => x.clone(),
        _ => match home {
            Some(h) => path_join(h.as_str(), ".config"),
            None => return None,
        },
    };
    let a = path_join(config.as_str(), "cce");
    let b = path_join(a.as_str(), "cce-files");
    Some(path_join(b.as_str(), "cce-files-last-dir.txt"))
}

/// The directory the remembered-directory file names: its trimmed text,
/// when that is not empty.
pub fn last_dir_candidate(content: &str) -> (r: Option<String>)
    ensures
        match r {
            Some(p) => p@ == trimmed(content@) && p@.len() > 0,
            None => trimmed(content@).len() == 0,
        },
{
    let t = trim_str(content);
    if t.unicode_len() > 0 { Some(t) } else { None }
}

} // verus!
