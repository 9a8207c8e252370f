//! The group widget: shows a single group's name.  Not part of any page's
//! current composition, but kept as a building block.

use vstd::prelude::*;
use crate::input::KeyEvent;

verus! {

#[derive(Clone, Debug)]
pub struct GroupWidget {
    pub group: String,
    pub focused: bool,
}

impl GroupWidget {
    pub fn new(group: String) -> (w: GroupWidget)
        ensures
            w.group == group,
            !w.focused,
    {
        GroupWidget { group, focused: false }
    }

    pub fn focus(&mut self)
        ensures
            final(self).focused,
            final(self).group == old(self).group,
    {
        self.focused = true;
    }

    pub fn unfocus(&mut self)
        ensures
            !final(self).focused,
            final(self).group == old(self).group,
    {
        self.focused = false;
    }

    /// Every key is ignored: the widget never changes.
    pub fn update(&mut self, _key: KeyEvent)
        ensures
            *final(self) == *old(self),
    {
    }
}

} // verus!
