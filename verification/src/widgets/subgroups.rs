//! The subgroups widget: the list of child groups of the current group.
//! Down/Up move the selection and Enter navigates into the selected
//! subgroup.

use vstd::prelude::*;
use crate::action::WidgetAction;
use crate::input::{plain_key, Key, KeyEvent, Mods};
use crate::viewport::{adjusted, contains_sel, lemma_recompute_keeps_selection_visible, recomputed, Viewport};

verus! {

/// One row per child group: its name and its id, both lists of the same
/// length; `group` is the path prefix shown before each name.
#[derive(Clone, Debug)]
pub struct SubgroupsWidget {
    pub group: String,
    pub subgroups: Vec<String>,
    pub sbids: Vec<String>,
    pub selected_row: usize,
    pub focused: bool,
    pub vp: Viewport,
}

impl SubgroupsWidget {
    pub open spec fn wf(self) -> bool {
        &&& self.sbids@.len() == self.subgroups@.len()
        &&& self.vp.wf()
        &&& self.subgroups@.len() > 0 ==> self.selected_row < self.subgroups@.len()
            && self.vp.bottom <= self.subgroups@.len()
        &&& self.subgroups@.len() == 0 ==> self.selected_row == 0
    }

    /// The content lists and path prefix agree between two states.
    pub open spec fn same_content(self, other: SubgroupsWidget) -> bool {
        &&& self.group == other.group
        &&& self.subgroups == other.subgroups
        &&& self.sbids == other.sbids
    }

    /// Everything but the focus flag agrees between two states.
    pub open spec fn same_but_focus(self, other: SubgroupsWidget) -> bool {
        &&& self.same_content(other)
        &&& self.selected_row == other.selected_row
        &&& self.vp == other.vp
    }

    pub fn new(group: String, subgroups: Vec<String>, sbids: Vec<String>) -> (w: SubgroupsWidget)
        requires
            sbids@.len() == subgroups@.len(),
        ensures
            w.wf(),
            w.group == group,
            w.subgroups == subgroups,
            w.sbids == sbids,
            w.selected_row == 0,
            !w.focused,
            w.vp.top == 0 && w.vp.bottom == 0,
    {
        SubgroupsWidget {
            group,
            subgroups,
            sbids,
            selected_row: 0,
            focused: false,
            vp: Viewport::new(),
        }
    }

    pub fn focus(&mut self)
        ensures
            final(self).focused,
            final(self).same_but_focus(*old(self)),
            old(self).wf() ==> final(self).wf(),
    {
        self.focused = true;
    }

    pub fn unfocus(&mut self)
        ensures
            !final(self).focused,
            final(self).same_but_focus(*old(self)),
            old(self).wf() ==> final(self).wf(),
    {
        self.focused = false;
    }

    /// Reset the window to the room inside the frame (`height - 2` rows) if
    /// the size changed, then keep the selection visible.
    pub fn resize(&mut self, height: usize)
        requires
            old(self).wf(),
            height >= 2,
        ensures
            final(self).wf(),
            final(self).same_content(*old(self)),
            final(self).focused == old(self).focused,
            final(self).selected_row == old(self).selected_row,
            (final(self).vp.top as int, final(self).vp.bottom as int) == recomputed(
                old(self).vp.top as int,
                old(self).vp.bottom as int,
                old(self).selected_row as int,
                old(self).subgroups@.len() as int,
                (height - 2) as int,
            ),
            ({
                let size = if old(self).subgroups@.len() <= height - 2 {
                    old(self).subgroups@.len() as int
                } else {
                    (height - 2) as int
                };
                size >= 1 && old(self).vp.bottom - old(self).vp.top != size ==> contains_sel(
                    final(self).vp.top as int,
                    final(self).vp.bottom as int,
                    old(self).selected_row as int,
                )
            }),
    {
        let len = self.subgroups.len();
        proof {
            if height - 2 >= 1 && self.subgroups@.len() >= 1 {
                lemma_recompute_keeps_selection_visible(
                    self.vp.top as int,
                    self.vp.bottom as int,
                    self.selected_row as int,
                    self.subgroups@.len() as int,
                    height - 2,
                );
            }
        }
        self.vp.recompute(self.selected_row, len, height - 2);
    }

    /// Shift the window until the selected row is inside it.
    pub fn scroll(&mut self)
        requires
            old(self).wf(),
        ensures
            final(self).wf(),
            final(self).same_content(*old(self)),
            final(self).focused == old(self).focused,
            final(self).selected_row == old(self).selected_row,
            (final(self).vp.top as int, final(self).vp.bottom as int) == adjusted(
                old(self).vp.top as int,
                old(self).vp.bottom as int,
                old(self).selected_row as int,
            ),
    {
        proof {
            vstd::std_specs::vec::axiom_spec_len(&self.subgroups);
        }
        self.vp.adjust(self.selected_row);
    }

    /// The update relation: how one key press relates the new state and the
    /// returned request to the old state.  `update` ensures exactly this.
    pub open spec fn step(pre: SubgroupsWidget, post: SubgroupsWidget, key: KeyEvent, a: WidgetAction) -> bool {
        &&& post.same_content(pre)
        &&& post.focused == pre.focused
        &&& (!pre.focused ==> post == pre && a == WidgetAction::Nothing)
        &&& (pre.subgroups@.len() == 0 ==> post == pre && a == WidgetAction::Nothing)
        &&& (pre.focused && pre.subgroups@.len() > 0 && key == plain_key(Key::Down) ==> a
            == WidgetAction::Nothing && ({
            if pre.selected_row + 1 < pre.subgroups@.len() {
                &&& post.selected_row == pre.selected_row + 1
                &&& (post.vp.top as int, post.vp.bottom as int) == adjusted(
                    pre.vp.top as int,
                    pre.vp.bottom as int,
                    pre.selected_row + 1,
                )
            } else {
                post == pre
            }
        }))
        &&& (pre.focused && pre.subgroups@.len() > 0 && key == plain_key(Key::Up) ==> a
            == WidgetAction::Nothing && ({
            if pre.selected_row > 0 {
                &&& post.selected_row == pre.selected_row - 1
                &&& (post.vp.top as int, post.vp.bottom as int) == adjusted(
                    pre.vp.top as int,
                    pre.vp.bottom as int,
                    pre.selected_row - 1,
                )
            } else {
                post == pre
            }
        }))
        &&& (pre.focused && pre.subgroups@.len() > 0 && key == plain_key(Key::Enter) ==> post
            == pre && a == (WidgetAction::OpenGroup {
            name: pre.subgroups@[pre.selected_row as int],
            group_id: pre.sbids@[pre.selected_row as int],
        }))
        &&& (pre.focused && (key.mods != Mods::Plain || !(key.code is Down || key.code is Up
            || key.code is Enter)) ==> post == pre && a == WidgetAction::Nothing)
    }

    /// Handle one key press while this widget is focused: Down/Up move the
    /// selection and keep it visible, Enter opens the selected subgroup.
    /// An unfocused widget, and one with no subgroups, ignores every key.
    pub fn update(&mut self, key: KeyEvent) -> (a: WidgetAction)
        requires
            old(self).wf(),
        ensures
            final(self).wf(),
            SubgroupsWidget::step(*old(self), *final(self), key, a),
    {
        if !self.focused {
            return WidgetAction::Nothing;
        }
        if self.subgroups.len() == 0 {
            return WidgetAction::Nothing;
        }
        match key.mods {
            Mods::Plain => {
                match key.code {
                    Key::Down => {
                        if self.selected_row < self.subgroups.len() - 1 {
                            self.selected_row = self.selected_row + 1;
                            self.scroll();
                        }
                        WidgetAction::Nothing
                    },
                    Key::Up => {
                        if self.selected_row > 0 {
                            self.selected_row = self.selected_row - 1;
                            self.scroll();
                        }
                        WidgetAction::Nothing
                    },
                    Key::Enter => {
                        WidgetAction::OpenGroup {
                            name: self.subgroups[self.selected_row].clone(),
                            group_id: self.sbids[self.selected_row].clone(),
                        }
                    },
                    _ => WidgetAction::Nothing,
                }
            },
            _ => WidgetAction::Nothing,
        }
    }
}

} // verus!
