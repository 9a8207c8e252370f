//! The bio widget: a user's about text.  Implemented but not yet wired into
//! any page, since the platform has no bio system yet; kept so a future
//! user page can grow a second widget.

use vstd::prelude::*;
use crate::input::KeyEvent;

verus! {

#[derive(Clone, Debug)]
pub struct BioWidget {
    pub content: String,
    pub selected_row: usize,
    pub focused: bool,
}

impl BioWidget {
    pub fn new(content: String) -> (w: BioWidget)
        ensures
            w.content == content,
            w.selected_row == 0,
            !w.focused,
    {
        BioWidget { content, selected_row: 0, focused: false }
    }

    pub fn focus(&mut self)
        ensures
            final(self).focused,
            final(self).content == old(self).content,
            final(self).selected_row == old(self).selected_row,
    {
        self.focused = true;
    }

    pub fn unfocus(&mut self)
        ensures
            !final(self).focused,
            final(self).content == old(self).content,
            final(self).selected_row == old(self).selected_row,
    {
        self.focused = false;
    }

    /// Every key is ignored: the widget never changes.
    pub fn update(&mut self, _key: KeyEvent)
        ensures
            *final(self) == *old(self),
    {
    }
}

} // verus!
