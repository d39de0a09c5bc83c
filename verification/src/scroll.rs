//! Whether the view follows the newest message.

use vstd::prelude::*;

verus! {

/// The scroll state of the message view. Pinned, the view moves with every
/// message that arrives, so that the newest one shows. Detached, the view
/// stays where the user left it.
#[derive(Clone, Copy, Debug, PartialEq, Eq, Structural)]
pub struct ScrollState {
    pinned: bool,
}

impl View for ScrollState {
    type V = bool;

    closed spec fn view(&self) -> bool {
        self.pinned
    }
}

impl ScrollState {
    /// The state at the start of a session: pinned.
    pub fn new() -> (r: ScrollState)
        ensures
            r@,
    {
        ScrollState { pinned: true }
    }

    /// Whether the view is pinned.
    pub fn is_pinned(&self) -> (r: bool)
        ensures
            r == self@,
    {
        self.pinned
    }

    /// Records a scroll: the view is pinned from now on exactly if its lower
    /// edge now lies on the last message, whatever the state was before.
    pub fn on_position_changed(&mut self, at_bottom: bool)
        ensures
            final(self)@ == at_bottom,
    {
        self.pinned = at_bottom;
    }
}

} // verus!
