pub mod browse;
pub mod chooser;
pub mod keybindings;
pub mod network;
pub mod preview;
pub mod space;

use vstd::prelude::*;

verus! {

#[derive(Debug, Clone, Copy, PartialEq, Eq)]
pub enum Page {
    Browse,
    Network,
    Space,
}

impl Page {
    /// Every page, in the order the page selector lists them.
    pub fn all() -> (r: [Page; 3])
        ensures
            r@ == seq![Page::Browse, Page::Network, Page::Space],
    {
        [Page::Browse, Page::Network, Page::Space]
    }

    pub open spec fn spec_label(self) -> &'static str {
        match self {
            Page::Browse => "Browse",
            Page::Network => "Network",
            Page::Space => "Space",
        }
    }

    pub fn label(self) -> (r: &'static str)
        ensures
            r == self.spec_label(),
    {
        match self {
            Page::Browse => "Browse",
            Page::Network => "Network",
            Page::Space => "Space",
        }
    }

    pub open spec fn spec_icon(self) -> &'static str {
        match self {
            Page::Browse => "📁",
            Page::Network => "🌐",
            Page::Space => "▦",
        }
    }

    pub fn icon(self) -> (r: &'static str)
        ensures
            r == self.spec_icon(),
    {
        match self {
            Page::Browse => "📁",
            Page::Network => "🌐",
            Page::Space => "▦",
        }
    }
}

} // verus!
