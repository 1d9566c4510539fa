//! Watching the shown directory: which changes call for a refresh, and how
//! long a burst of changes is gathered before one refresh is asked for.

use vstd::prelude::*;

verus! {

/// The kinds of change a directory watcher reports.
#[derive(Debug, Clone, Copy, PartialEq, Eq)]
pub enum ChangeKind {
    Create,
    Modify,
    Remove,
    Access,
    Any,
    Other,
}

/// Changes within this many milliseconds of the first one are answered by
/// a single refresh.
pub const REFRESH_DEBOUNCE_MS: u64 = 150;

/// Whether a change calls for re-reading the directory: a creation, a
/// modification or a removal.
pub fn triggers_refresh(kind: ChangeKind) -> (r: bool)
    ensures
        r == (kind == ChangeKind::Create || kind == ChangeKind::Modify || kind == ChangeKind::Remove),
{
    match kind {
        ChangeKind::Create => true,
        ChangeKind::Modify => true,
        ChangeKind::Remove => true,
        _ => false,
    }
}

} // verus!
