//! The Network page shows the current directory as a node graph: its parent
//! (when it has one), the directory itself, and one node per entry, wired
//! child → directory → parent. This module computes those nodes.

use vstd::prelude::*;
use crate::pages::browse::DirEntry;
use crate::path::{file_name, parent, path_file_name, path_parent};
use crate::text::{concat_str, copy_string};

verus! {

/// The page's messages: there are none, so no value of this type exists.
#[derive(Debug, Clone, Copy)]
pub struct NetworkMessage(pub core::convert::Infallible);

/// One graph node: its label, its grid cell (column, row), and its input
/// connections as (parameter, source node label, kind).
#[derive(Debug, Clone)]
pub struct GraphNodeSpec {
    pub name: String,
    pub column: usize,
    pub row: usize,
    pub parameters: Vec<(String, String, String)>,
}

/// The label of a directory node: its name, `/` when it has none.
pub open spec fn dir_label(p: Seq<char>) -> Seq<char> {
    match file_name(p) {
        Some(n) => n,
        None => "/"@,
    }
}

/// The parent node's label, when the directory has a parent.
pub open spec fn parent_label(dir: Seq<char>) -> Option<Seq<char>> {
    match parent(dir) {
        Some(p) => Some("📁 .. ("@ + dir_label(p) + ")"@),
        None => None,
    }
}

/// The current directory node's label.
pub open spec fn current_label(dir: Seq<char>) -> Seq<char> {
    "📁 "@ + dir_label(dir)
}

/// An entry node's label.
pub open spec fn entry_label(e: DirEntry) -> Seq<char> {
    (if e.is_dir { "📁 "@ } else { "📄 "@ }) + e.name@
}

/// Node `k` of the graph is an input connection `(input, source, string)`.
pub open spec fn is_input_from(params: Seq<(String, String, String)>, source: Seq<char>) -> bool {
    params.len() == 1 && params[0].0@ == "input"@ && params[0].1@ == source && params[0].2@ == "string"@
}

fn dir_label_of(p: &str) -> (r: String)
    ensures
        r@ == dir_label(p@),
{
    match path_file_name(p) {
        Some(n) => n,
        None => String::from_str("/"),
    }
}

fn input_from(source: &String) -> (r: Vec<(String, String, String)>)
    ensures
        is_input_from(r@, source@),
{
    let mut v: Vec<(String, String, String)> = Vec::new();
    v.push((String::from_str("input"), copy_string(source), String::from_str("string")));
    v
}

/// The parent node's label for `current_dir`, when it has a parent.
fn parent_node_label(current_dir: &str) -> (r: Option<String>)
    ensures
        match r {
            Some(s) => parent_label(current_dir@) == Some(s@),
            None => parent_label(current_dir@) is None,
        },
{
    match path_parent(current_dir) {
        Some(p) => {
            let label = dir_label_of(p.as_str());
            let head = concat_str("📁 .. (", label.as_str());
            Some(concat_str(head.as_str(), ")"))
        },
        None => None,
    }
}

/// The graph's nodes for `current_dir` listing `entries`: the parent node
/// (at column 3, row 0) when there is a parent; the directory node (column
/// 3, row 1), wired to the parent; then the entries seven to a row from row
/// 2, each wired to the directory.
pub fn graph_nodes(current_dir: &str, entries: &Vec<DirEntry>) -> (r: Vec<GraphNodeSpec>)
    ensures
        ({
            let off: int = if parent_label(current_dir@) is Some { 1 } else { 0 };
            &&& r@.len() == off + 1 + entries@.len()
            &&& parent_label(current_dir@) is Some ==> {
                &&& r@[0].name@ == parent_label(current_dir@)->0
                &&& r@[0].column == 3 && r@[0].row == 0
                &&& r@[0].parameters@.len() == 0
            }
            &&& r@[off].name@ == current_label(current_dir@)
            &&& r@[off].column == 3 && r@[off].row == 1
            &&& match parent_label(current_dir@) {
                Some(pl) => is_input_from(r@[off].parameters@, pl),
                None => r@[off].parameters@.len() == 0,
            }
            &&& forall|i: int| 0 <= i < entries@.len() ==> {
                &&& (#[trigger] r@[off + 1 + i]).name@ == entry_label(entries@[i])
                &&& r@[off + 1 + i].column == i % 7
                &&& r@[off + 1 + i].row == 2 + i / 7
                &&& is_input_from(r@[off + 1 + i].parameters@, current_label(current_dir@))
            }
        }),
{
    let mut nodes: Vec<GraphNodeSpec> = Vec::new();
    let parent_name = parent_node_label(current_dir);
    let ghost off: int = if parent_label(current_dir@) is Some { 1 } else { 0 };
    let params = match &parent_name {
        Some(p) => {
            nodes.push(GraphNodeSpec { name: copy_string(p), column: 3, row: 0, parameters: Vec::new() });
            input_from(p)
        },
        None => Vec::new(),
    };
    let label = dir_label_of(current_dir);
    let current_name = concat_str("📁 ", label.as_str());
    nodes.push(GraphNodeSpec { name: copy_string(&current_name), column: 3, row: 1, parameters: params });
    let ghost head = nodes@;
    proof {
        assert(head.len() == off + 1);
        assert(head[off].name@ == current_label(current_dir@));
    }
    let mut i: usize = 0;
    while i < entries.len()
        invariant
            i <= entries@.len(),
            head.len() == off + 1,
            nodes@.len() == off + 1 + i,
            forall|k: int| 0 <= k < head.len() ==> nodes@[k] == head[k],
            current_name@ == current_label(current_dir@),
            forall|k: int| 0 <= k < i ==> {
                &&& (#[trigger] nodes@[off + 1 + k]).name@ == entry_label(entries@[k])
                &&& nodes@[off + 1 + k].column == k % 7
                &&& nodes@[off + 1 + k].row == 2 + k / 7
                &&& is_input_from(nodes@[off + 1 + k].parameters@, current_label(current_dir@))
            },
        decreases entries@.len() - i,
    {
        let e = &entries[i];
        let name = if e.is_dir {
            concat_str("📁 ", e.name.as_str())
        } else {
            concat_str("📄 ", e.name.as_str())
        };
        let params = input_from(&current_name);
        let ghost before = nodes@;
        nodes.push(GraphNodeSpec { name, column: i % 7, row: 2 + i / 7, parameters: params });
        proof {
            assert(nodes@[off + 1 + i].name@ == entry_label(entries@[i as int]));
            assert forall|k: int| 0 <= k < i + 1 implies {
                &&& (#[trigger] nodes@[off + 1 + k]).name@ == entry_label(entries@[k])
                &&& nodes@[off + 1 + k].column == k % 7
                &&& nodes@[off + 1 + k].row == 2 + k / 7
                &&& is_input_from(nodes@[off + 1 + k].parameters@, current_label(current_dir@))
            } by {
                if k < i {
                    assert(nodes@[off + 1 + k] == before[off + 1 + k]);
                }
            }
        }
        i = i + 1;
    }
    proof {
        assert(nodes@[off] == head[off]);
        if off == 1 {
            assert(nodes@[0] == head[0]);
        }
    }
    nodes
}

/// The index of the first entry node: after the parent node (when there is
/// one) and the directory node.
pub open spec fn first_entry_node(current_dir: Seq<char>) -> int {
    if parent_label(current_dir) is Some { 2 } else { 1 }
}

/// The graph node that stands for the entry selected in the listing.
pub fn selected_graph_node(current_dir: &str, selected: Option<usize>) -> (r: Option<usize>)
    requires
        selected matches Some(s) ==> s + first_entry_node(current_dir@) <= usize::MAX,
    ensures
        match selected {
            Some(s) => r == Some((s + first_entry_node(current_dir@)) as usize),
            None => r is None,
        },
{
    let offset: usize = if path_parent(current_dir).is_some() { 2 } else { 1 };
    match selected {
        Some(s) => Some(s + offset),
        None => None,
    }
}

/// How the graph's selection follows the listing's: `Some(new)` when it
/// changes to `new`, None when it stays. With an entry selected, the graph
/// selects its node unless a node is being dragged; with none, an entry
/// node selected in the graph is cleared (the parent and directory nodes
/// may stay selected).
pub open spec fn graph_selection_step(
    current_dir: Seq<char>,
    browse_selected: Option<usize>,
    graph_selected: Option<usize>,
    dragging: bool,
) -> Option<Option<int>> {
    let offset = first_entry_node(current_dir);
    match browse_selected {
        Some(s) => {
            if !(graph_selected matches Some(g) && g == s + offset) && !dragging {
                Some(Some(s + offset))
            } else {
                None
            }
        },
        None => match graph_selected {
            Some(g) => if g >= offset { Some(None) } else { None },
            None => None,
        },
    }
}

/// The graph selection's change as integers.
pub open spec fn selection_change_view(c: Option<Option<usize>>) -> Option<Option<int>> {
    match c {
        Some(Some(n)) => Some(Some(n as int)),
        Some(None) => Some(None),
        None => None,
    }
}

/// How the graph's selection follows the listing's (see
/// `graph_selection_step`).
pub fn graph_selection_update(
    current_dir: &str,
    browse_selected: Option<usize>,
    graph_selected: Option<usize>,
    dragging: bool,
) -> (r: Option<Option<usize>>)
    requires
        browse_selected matches Some(s) ==> s + first_entry_node(current_dir@) <= usize::MAX,
    ensures
        selection_change_view(r) == graph_selection_step(current_dir@, browse_selected, graph_selected, dragging),
{
    let offset: usize = if path_parent(current_dir).is_some() { 2 } else { 1 };
    match browse_selected {
        Some(s) => {
            let expected = s + offset;
            let same = match graph_selected {
                Some(g) => g == expected,
                None => false,
            };
            if !same && !dragging { Some(Some(expected)) } else { None }
        },
        None => match graph_selected {
            Some(g) => if g >= offset { Some(None) } else { None },
            None => None,
        },
    }
}

} // verus!
