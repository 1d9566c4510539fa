//! One row of the column list.

use vstd::prelude::*;

verus! {

#[derive(Debug, Clone)]
pub struct Row {
    pub cells: Vec<String>,
    pub icon: Option<String>,
    pub selected: bool,
}

} // verus!
