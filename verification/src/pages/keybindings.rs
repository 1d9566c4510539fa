//! The keybindings page holds no state and handles no messages.

use vstd::prelude::*;

verus! {

#[derive(Debug, Clone, Default)]
pub struct KeybindingsState;

/// The page's messages: there are none, so no value of this type exists.
#[derive(Debug, Clone, Copy)]
pub struct KeybindingsMessage(pub core::convert::Infallible);

/// The page has nothing to change: every message leaves the state as it was.
pub fn update(state: &mut KeybindingsState, msg: KeybindingsMessage)
    ensures
        *final(state) == *old(state),
{
}

} // verus!
