//! The location widget: shows the path of the group or thread being viewed.
//! It is focusable as part of the page's cycle but reacts to no key.

use vstd::prelude::*;
use crate::action::WidgetAction;
use crate::input::KeyEvent;

verus! {

#[derive(Clone, Debug)]
pub struct LocationWidget {
    pub loc: String,
    pub focused: bool,
}

impl LocationWidget {
    pub fn new(loc: String) -> (w: LocationWidget)
        ensures
            w.loc == loc,
            !w.focused,
    {
        LocationWidget { loc, focused: false }
    }

    pub fn focus(&mut self)
        ensures
            final(self).focused,
            final(self).loc == old(self).loc,
    {
        self.focused = true;
    }

    pub fn unfocus(&mut self)
        ensures
            !final(self).focused,
            final(self).loc == old(self).loc,
    {
        self.focused = false;
    }

    /// Every key is ignored: the widget never changes and asks for nothing.
    pub fn update(&mut self, _key: KeyEvent) -> (a: WidgetAction)
        ensures
            *final(self) == *old(self),
            a == WidgetAction::Nothing,
    {
        WidgetAction::Nothing
    }
}

} // verus!
