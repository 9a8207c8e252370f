//! The account widget: shows which account is logged in.  It is focusable
//! as part of the page's cycle but reacts to no key.

use vstd::prelude::*;
use crate::action::WidgetAction;
use crate::input::KeyEvent;

verus! {

#[derive(Clone, Debug)]
pub struct AccountWidget {
    pub account: String,
    pub focused: bool,
}

impl AccountWidget {
    pub fn new(account: String) -> (w: AccountWidget)
        ensures
            w.account == account,
            !w.focused,
    {
        AccountWidget { account, focused: false }
    }

    pub fn focus(&mut self)
        ensures
            final(self).focused,
            final(self).account == old(self).account,
    {
        self.focused = true;
    }

    pub fn unfocus(&mut self)
        ensures
            !final(self).focused,
            final(self).account == old(self).account,
    {
        self.focused = false;
    }

    /// Every key is ignored: the widget never changes and asks for nothing.
    pub fn update(&mut self, _key: KeyEvent) -> (a: WidgetAction)
        ensures
            *final(self) == *old(self),
            a == WidgetAction::Nothing,
    {
        WidgetAction::Nothing
    }
}

} // verus!
