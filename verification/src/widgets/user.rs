//! The user widget: shows a user's name and the day they joined.  It is
//! focusable but reacts to no key.

use vstd::prelude::*;
use crate::action::WidgetAction;
use crate::input::KeyEvent;

verus! {

#[derive(Clone, Debug)]
pub struct UserWidget {
    pub username: String,
    pub join_time: u64,
    pub focused: bool,
}

impl UserWidget {
    pub fn new(username: String, join_time: u64) -> (w: UserWidget)
        ensures
            w.username == username,
            w.join_time == join_time,
            !w.focused,
    {
        UserWidget { username, join_time, focused: false }
    }

    pub fn focus(&mut self)
        ensures
            final(self).focused,
            final(self).username == old(self).username,
            final(self).join_time == old(self).join_time,
    {
        self.focused = true;
    }

    pub fn unfocus(&mut self)
        ensures
            !final(self).focused,
            final(self).username == old(self).username,
            final(self).join_time == old(self).join_time,
    {
        self.focused = false;
    }

    /// Every key is ignored: the widget never changes and asks for nothing.
    pub fn update(&mut self, _key: KeyEvent) -> (a: WidgetAction)
        ensures
            *final(self) == *old(self),
            a == WidgetAction::Nothing,
    {
        WidgetAction::Nothing
    }
}

} // verus!
