//! The preview pane's wells.

use vstd::prelude::*;

verus! {

/// The preview pane's two recessed wells: the file-preview section (top
/// half) and the details section below it.
#[derive(Debug, Clone, Copy, PartialEq, Eq)]
pub enum PreviewWell {
    Top,
    Bottom,
}

} // verus!
