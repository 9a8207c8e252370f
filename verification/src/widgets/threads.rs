//! The threads widget: the list of threads of a group, side by side with
//! their authors.  Down/Up move the selection, Left/Right switch between
//! the thread column and the author column, and Enter opens the selected
//! thread or the selected author's profile.

use vstd::prelude::*;
use crate::action::WidgetAction;
use crate::input::{plain_key, Key, KeyEvent, Mods};
use crate::viewport::{adjusted, contains_sel, lemma_recompute_keeps_selection_visible, recomputed, Viewport};

verus! {

/// One row per thread: its title, its id, its author's name and the
/// author's id, all four lists of the same length.
#[derive(Clone, Debug)]
pub struct ThreadsWidget {
    pub threads: Vec<String>,
    pub tids: Vec<String>,
    pub authors: Vec<String>,
    pub aids: Vec<String>,
    pub selected_row: usize,
    pub focused: bool,
    pub on_left: bool,
    pub vp: Viewport,
}

impl ThreadsWidget {
    pub open spec fn wf(self) -> bool {
        &&& self.tids@.len() == self.threads@.len()
        &&& self.authors@.len() == self.threads@.len()
        &&& self.aids@.len() == self.threads@.len()
        &&& self.vp.wf()
        &&& self.threads@.len() > 0 ==> self.selected_row < self.threads@.len()
            && self.vp.bottom <= self.threads@.len()
        &&& self.threads@.len() == 0 ==> self.selected_row == 0
    }

    /// The four content lists agree between two states.
    pub open spec fn same_content(self, other: ThreadsWidget) -> bool {
        &&& self.threads == other.threads
        &&& self.tids == other.tids
        &&& self.authors == other.authors
        &&& self.aids == other.aids
    }

    /// Everything but the focus flag agrees between two states.
    pub open spec fn same_but_focus(self, other: ThreadsWidget) -> bool {
        &&& self.same_content(other)
        &&& self.selected_row == other.selected_row
        &&& self.on_left == other.on_left
        &&& self.vp == other.vp
    }

    pub fn new(threads: Vec<String>, tids: Vec<String>, authors: Vec<String>, aids: Vec<String>) -> (w:
        ThreadsWidget)
        requires
            tids@.len() == threads@.len(),
            authors@.len() == threads@.len(),
            aids@.len() == threads@.len(),
        ensures
            w.wf(),
            w.threads == threads,
            w.tids == tids,
            w.authors == authors,
            w.aids == aids,
            w.selected_row == 0,
            !w.focused,
            w.on_left,
            w.vp.top == 0 && w.vp.bottom == 0,
    {
        ThreadsWidget {
            threads,
            tids,
            authors,
            aids,
            selected_row: 0,
            focused: false,
            on_left: true,
            vp: Viewport::new(),
        }
    }

    pub fn focus(&mut self)
        ensures
            final(self).focused,
            final(self).same_but_focus(*old(self)),
            old(self).wf() ==> final(self).wf(),
    {
        self.focused = true;
    }

    pub fn unfocus(&mut self)
        ensures
            !final(self).focused,
            final(self).same_but_focus(*old(self)),
            old(self).wf() ==> final(self).wf(),
    {
        self.focused = false;
    }

    /// Reset the window to the room inside the frame (`height - 2` rows) if
    /// the size changed, then keep the selection visible.
    pub fn resize(&mut self, height: usize)
        requires
            old(self).wf(),
            height >= 2,
        ensures
            final(self).wf(),
            final(self).same_content(*old(self)),
            final(self).focused == old(self).focused,
            final(self).on_left == old(self).on_left,
            final(self).selected_row == old(self).selected_row,
            (final(self).vp.top as int, final(self).vp.bottom as int) == recomputed(
                old(self).vp.top as int,
                old(self).vp.bottom as int,
                old(self).selected_row as int,
                old(self).threads@.len() as int,
                (height - 2) as int,
            ),
            ({
                let size = if old(self).threads@.len() <= height - 2 {
                    old(self).threads@.len() as int
                } else {
                    (height - 2) as int
                };
                size >= 1 && old(self).vp.bottom - old(self).vp.top != size ==> contains_sel(
                    final(self).vp.top as int,
                    final(self).vp.bottom as int,
                    old(self).selected_row as int,
                )
            }),
    {
        let len = self.threads.len();
        proof {
            if height - 2 >= 1 && self.threads@.len() >= 1 {
                lemma_recompute_keeps_selection_visible(
                    self.vp.top as int,
                    self.vp.bottom as int,
                    self.selected_row as int,
                    self.threads@.len() as int,
                    height - 2,
                );
            }
        }
        self.vp.recompute(self.selected_row, len, height - 2);
    }

    /// Shift the window until the selected row is inside it.
    pub fn scroll(&mut self)
        requires
            old(self).wf(),
        ensures
            final(self).wf(),
            final(self).same_content(*old(self)),
            final(self).focused == old(self).focused,
            final(self).on_left == old(self).on_left,
            final(self).selected_row == old(self).selected_row,
            (final(self).vp.top as int, final(self).vp.bottom as int) == adjusted(
                old(self).vp.top as int,
                old(self).vp.bottom as int,
                old(self).selected_row as int,
            ),
    {
        proof {
            vstd::std_specs::vec::axiom_spec_len(&self.threads);
        }
        self.vp.adjust(self.selected_row);
    }

    /// The update relation: how one key press relates the new state and the
    /// returned request to the old state.  `update` ensures exactly this.
    pub open spec fn step(pre: ThreadsWidget, post: ThreadsWidget, key: KeyEvent, a: WidgetAction) -> bool {
        &&& post.same_content(pre)
        &&& post.focused == pre.focused
        &&& (!pre.focused ==> post == pre && a == WidgetAction::Nothing)
        &&& (pre.focused && key == plain_key(Key::Down) ==> a == WidgetAction::Nothing
            && post.on_left == pre.on_left && ({
            if pre.threads@.len() > 0 && pre.selected_row + 1 < pre.threads@.len() {
                &&& post.selected_row == pre.selected_row + 1
                &&& (post.vp.top as int, post.vp.bottom as int) == adjusted(
                    pre.vp.top as int,
                    pre.vp.bottom as int,
                    pre.selected_row + 1,
                )
            } else {
                post == pre
            }
        }))
        &&& (pre.focused && key == plain_key(Key::Up) ==> a == WidgetAction::Nothing
            && post.on_left == pre.on_left && ({
            if pre.threads@.len() > 0 && pre.selected_row > 0 {
                &&& post.selected_row == pre.selected_row - 1
                &&& (post.vp.top as int, post.vp.bottom as int) == adjusted(
                    pre.vp.top as int,
                    pre.vp.bottom as int,
                    pre.selected_row - 1,
                )
            } else {
                post == pre
            }
        }))
        &&& (pre.focused && key == plain_key(Key::Left) ==> a == WidgetAction::Nothing
            && post.on_left && post.selected_row == pre.selected_row && post.vp == pre.vp)
        &&& (pre.focused && key == plain_key(Key::Right) ==> a == WidgetAction::Nothing
            && !post.on_left && post.selected_row == pre.selected_row && post.vp == pre.vp)
        &&& (pre.focused && key == plain_key(Key::Enter) ==> post == pre && ({
            if pre.threads@.len() > 0 {
                if pre.on_left {
                    a == (WidgetAction::OpenThread {
                        title: pre.threads@[pre.selected_row as int],
                        thread_id: pre.tids@[pre.selected_row as int],
                    })
                } else {
                    a == (WidgetAction::OpenUser { user_id: pre.aids@[pre.selected_row as int] })
                }
            } else {
                a == WidgetAction::Nothing
            }
        }))
        &&& (pre.focused && (key.mods != Mods::Plain || !(key.code is Down || key.code is Up
            || key.code is Left || key.code is Right || key.code is Enter)) ==> post == pre && a
            == WidgetAction::Nothing)
    }

    /// Handle one key press while this widget is focused: Down/Up move the
    /// selection and keep it visible, Left/Right pick the column, Enter
    /// opens the selected thread (left column) or author (right column).
    /// An unfocused widget ignores every key.
    pub fn update(&mut self, key: KeyEvent) -> (a: WidgetAction)
        requires
            old(self).wf(),
        ensures
            final(self).wf(),
            ThreadsWidget::step(*old(self), *final(self), key, a),
    {
        if !self.focused {
            return WidgetAction::Nothing;
        }
        match key.mods {
            Mods::Plain => {
                match key.code {
                    Key::Down => {
                        if self.authors.len() > 0 && self.selected_row < self.threads.len() - 1 {
                            self.selected_row = self.selected_row + 1;
                            self.scroll();
                        }
                        WidgetAction::Nothing
                    },
                    Key::Up => {
                        if self.authors.len() > 0 && self.selected_row > 0 {
                            self.selected_row = self.selected_row - 1;
                            self.scroll();
                        }
                        WidgetAction::Nothing
                    },
                    Key::Left => {
                        if !self.on_left {
                            self.on_left = true;
                        }
                        WidgetAction::Nothing
                    },
                    Key::Right => {
                        if self.on_left {
                            self.on_left = false;
                        }
                        WidgetAction::Nothing
                    },
                    Key::Enter => {
                        if self.authors.len() > 0 {
                            if self.on_left {
                                WidgetAction::OpenThread {
                                    title: self.threads[self.selected_row].clone(),
                                    thread_id: self.tids[self.selected_row].clone(),
                                }
                            } else {
                                WidgetAction::OpenUser {
                                    user_id: self.aids[self.selected_row].clone(),
                                }
                            }
                        } else {
                            WidgetAction::Nothing
                        }
                    },
                    _ => WidgetAction::Nothing,
                }
            },
            _ => WidgetAction::Nothing,
        }
    }
}

} // verus!
