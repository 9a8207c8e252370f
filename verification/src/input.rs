//! Key-press events as the navigation core sees them: a key code plus a
//! modifier summary.  The binary decodes whatever its terminal backend
//! delivers into these plain values before handing them to a page.

use vstd::prelude::*;

verus! {

/// The keys the interface reacts to.  Anything else arrives as `Other` and is
/// ignored by every widget.
#[derive(Clone, Copy, PartialEq, Eq, Structural, Debug)]
pub enum Key {
    Up,
    Down,
    Left,
    Right,
    Enter,
    Tab,
    Esc,
    Backspace,
    Insert,
    Home,
    Char(char),
    Other,
}

/// Modifier summary of a key press.  `Plain` means no modifier was held;
/// `Shift` exactly the shift key; everything else is collapsed into
/// `Control` or `Other`, which the widgets ignore.
#[derive(Clone, Copy, PartialEq, Eq, Structural, Debug)]
pub enum Mods {
    Plain,
    Shift,
    Control,
    Other,
}

/// One key press from the input stream.
#[derive(Clone, Copy, PartialEq, Eq, Structural, Debug)]
pub struct KeyEvent {
    pub code: Key,
    pub mods: Mods,
}

/// The key press `code` without modifiers, as the contracts name it.
pub open spec fn plain_key(code: Key) -> KeyEvent {
    KeyEvent { code, mods: Mods::Plain }
}

impl KeyEvent {
    /// A key press without modifiers.
    pub fn plain(code: Key) -> (k: KeyEvent)
        ensures
            k == plain_key(code),
    {
        KeyEvent { code, mods: Mods::Plain }
    }
}

} // verus!
