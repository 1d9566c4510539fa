pub mod pages;
pub mod path;
pub mod preview_pane;
pub mod row_list;
pub mod services;
pub mod spaces;
pub mod text;

use vstd::prelude::*;
use pages::Page;

verus! {

/// What the main window reacts to: a page switch, a message for one of the
/// pages, and the chooser and "Open with" dialog's actions.
#[derive(Debug)]
pub enum Message {
    SwitchPage(Page),
    Browse(pages::browse::BrowseMessage),
    Preview(pages::preview::PreviewMessage),
    SelectOpen,
    SelectCancel,
    PromptOpenWith(String),
    OpenWithSubmit,
    OpenWithCancel,
    CopyPath(String),
}

} // verus!
