//! The scanned tree behind the Space (treemap) page.
//!
//! A walk of a directory hands back, for every directory, what it holds; this
//! module turns that into the tree the treemap draws: every directory's size
//! is the sum of what it contains, and every directory's children are sorted
//! largest first — the order the squarified layout wants.

use vstd::prelude::*;
use vstd::seq_lib::*;

verus! {

/// One node of a scanned tree. `size` is the recursive total for a directory
/// and the apparent size for a file. Children are sorted descending by size.
#[derive(Debug, Default)]
pub struct TreeNode {
    pub name: String,
    pub size: u64,
    pub is_dir: bool,
    pub children: Vec<TreeNode>,
}

#[derive(Debug, Default)]
pub struct ScanResult {
    pub tree: TreeNode,
    pub files: u64,
    pub dirs: u64,
    /// True when the scan stopped early because its cancel flag was raised:
    /// the tree is a partial one and should be discarded, not drawn.
    pub cancelled: bool,
}

/// The sum of the sizes of a list of nodes.
pub open spec fn sizes_total(s: Seq<TreeNode>) -> int
    decreases s.len(),
{
    if s.len() == 0 {
        0
    } else {
        sizes_total(s.drop_last()) + s.last().size
    }
}

/// Largest first.
pub open spec fn sorted_by_size_desc(s: Seq<TreeNode>) -> bool {
    forall|k: int, l: int| 0 <= k < l < s.len() ==> #[trigger] s[k].size >= #[trigger] s[l].size
}

proof fn lemma_total_prefix(s: Seq<TreeNode>, i: int)
    requires
        0 <= i <= s.len(),
    ensures
        sizes_total(s.subrange(0, i)) <= sizes_total(s),
        sizes_total(s.subrange(0, i)) >= 0,
    decreases s.len() - i,
{
    if i < s.len() {
        lemma_total_prefix(s, i + 1);
        assert(s.subrange(0, i + 1).drop_last() =~= s.subrange(0, i));
        lemma_total_nonneg(s.subrange(0, i));
    } else {
        assert(s.subrange(0, i) =~= s);
        lemma_total_nonneg(s);
    }
}

proof fn lemma_total_nonneg(s: Seq<TreeNode>)
    ensures
        sizes_total(s) >= 0,
    decreases s.len(),
{
    if s.len() > 0 {
        lemma_total_nonneg(s.drop_last());
    }
}

/// A file's node: its apparent size, no children.
pub fn file_node(name: String, size: u64) -> (r: TreeNode)
    ensures
        r.name == name,
        r.size == size,
        !r.is_dir,
        r.children@.len() == 0,
{
    TreeNode { name, size, is_dir: false, children: Vec::new() }
}

/// A directory's node from the nodes of what it holds: its size is the sum
/// of theirs, and they are kept sorted largest first.
pub fn dir_node(name: String, children: Vec<TreeNode>) -> (r: TreeNode)
    requires
        sizes_total(children@) <= u64::MAX,
    ensures
        r.name == name,
        r.is_dir,
        r.size == sizes_total(children@),
        r.children@.to_multiset() == children@.to_multiset(),
        sorted_by_size_desc(r.children@),
{
    let ghost orig = children@;
    let mut total: u64 = 0;
    let mut i: usize = 0;
    while i < children.len()
        invariant
            i <= children@.len(),
            children@ == orig,
            sizes_total(orig) <= u64::MAX,
            total == sizes_total(orig.subrange(0, i as int)),
        decreases children@.len() - i,
    {
        proof {
            lemma_total_prefix(orig, i + 1);
            assert(orig.subrange(0, i + 1).drop_last() =~= orig.subrange(0, i as int));
        }
        total = total + children[i].size;
        i = i + 1;
    }
    proof {
        assert(orig.subrange(0, orig.len() as int) =~= orig);
    }
    let mut rest = children;
    let mut out: Vec<TreeNode> = Vec::new();
    proof {
        broadcast use group_to_multiset_ensures;
        assert(out@.to_multiset() =~= vstd::multiset::Multiset::empty());
        assert(rest@.to_multiset().add(out@.to_multiset()) =~= orig.to_multiset());
    }
    while rest.len() > 0
        invariant
            rest@.to_multiset().add(out@.to_multiset()) == orig.to_multiset(),
            sorted_by_size_desc(out@),
        decreases rest@.len(),
    {
        let ghost before = rest@;
        let x = rest.pop().unwrap();
        proof {
            broadcast use group_to_multiset_ensures;
            assert(before =~= rest@.push(x));
        }
        let mut p: usize = 0;
        while p < out.len()
            invariant
                p <= out@.len(),
                forall|k: int| 0 <= k < p ==> #[trigger] out@[k].size >= x.size,
            ensures
                p <= out@.len(),
                forall|k: int| 0 <= k < p ==> #[trigger] out@[k].size >= x.size,
                p < out@.len() ==> out@[p as int].size < x.size,
            decreases out@.len() - p,
        {
            if out[p].size < x.size {
                break;
            }
            p = p + 1;
        }
        let ghost old_out = out@;
        out.insert(p, x);
        proof {
            broadcast use group_to_multiset_ensures;
            assert(out@.to_multiset() == old_out.to_multiset().insert(x)) by {
                to_multiset_insert(old_out, p as int, x);
            }
            assert(rest@.to_multiset().add(out@.to_multiset()) =~= orig.to_multiset());
            assert forall|k: int, l: int| 0 <= k < l < out@.len() implies #[trigger] out@[k].size >= #[trigger] out@[l].size by {
                if l < p {
                    assert(out@[k] == old_out[k] && out@[l] == old_out[l]);
                } else if k > p {
                    assert(out@[k] == old_out[k - 1] && out@[l] == old_out[l - 1]);
                } else if k < p && l > p {
                    assert(out@[k] == old_out[k] && out@[l] == old_out[l - 1]);
                } else if l == p {
                    assert(out@[k] == old_out[k]);
                } else {
                    assert(out@[l] == old_out[l - 1]);
                    assert(old_out[p as int].size < x.size);
                }
            }
        }
    }
    proof {
        broadcast use group_to_multiset_ensures;
        assert(rest@ =~= Seq::<TreeNode>::empty());
        assert(rest@.to_multiset() =~= vstd::multiset::Multiset::empty());
        assert(out@.to_multiset() =~= orig.to_multiset());
    }
    TreeNode { name, size: total, is_dir: true, children: out }
}

/// What a walk does with one directory entry.
#[derive(Debug, Clone, Copy, PartialEq, Eq)]
pub enum EntryKind {
    /// Symlinks, entries on another device, sockets, fifos and device nodes
    /// are left out entirely.
    Skip,
    /// A directory on the scan root's device: walked into.
    Descend,
    /// A regular file: counted with its apparent size.
    Count,
}

/// The walk's rule for an entry, from its own (not followed) metadata: a
/// symlink or an entry on another device than the scan root is skipped, so
/// a link cannot pull its target's bytes in or loop the walk, and scanning
/// `/` does not wander into other filesystems.
pub fn classify_entry(is_symlink: bool, dev: u64, root_dev: u64, is_dir: bool, is_file: bool) -> (r: EntryKind)
    ensures
        r == (if is_symlink || dev != root_dev {
            EntryKind::Skip
        } else if is_dir {
            EntryKind::Descend
        } else if is_file {
            EntryKind::Count
        } else {
            EntryKind::Skip
        }),
{
    if is_symlink || dev != root_dev {
        EntryKind::Skip
    } else if is_dir {
        EntryKind::Descend
    } else if is_file {
        EntryKind::Count
    } else {
        EntryKind::Skip
    }
}

/// How far below the scan root the walk descends.
pub const MAX_DEPTH: u32 = 64;

/// Milliseconds between progress reports of a scan in flight.
pub const PROGRESS_INTERVAL_MS: u128 = 150;

/// Whether a directory at `depth` is walked into at all (the cap keeps a
/// pathological tree from overflowing the recursion), given whether the
/// scan has been cancelled.
pub fn walk_allowed(depth: u32, cancelled: bool) -> (r: bool)
    ensures
        r == (depth < MAX_DEPTH && !cancelled),
{
    depth < MAX_DEPTH && !cancelled
}

/// Whether a progress report is due, `elapsed_ms` after the last one.
pub fn progress_due(elapsed_ms: u128) -> (r: bool)
    ensures
        r == (elapsed_ms >= PROGRESS_INTERVAL_MS),
{
    elapsed_ms >= PROGRESS_INTERVAL_MS
}

} // verus!
