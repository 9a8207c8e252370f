//! The messages widget: the thread body and its replies, one message shown
//! at a time, plus the compose buffer used to draft a reply.  Left/Right
//! move between messages and into edit mode (the slot after the last
//! message), Down/Up move the row selection or the compose cursor, Enter,
//! Backspace and character keys edit the draft, and Insert submits it.

use vstd::prelude::*;
use crate::action::WidgetAction;
use crate::input::{plain_key, Key, KeyEvent, Mods};
use crate::textbuf::TextEditBuffer;
use crate::viewport::{adjusted, contains_sel, lemma_recompute_keeps_selection_visible, moved, recomputed, SelMove, Viewport};

verus! {

/// One entry per message: its author's name and its body as rows; the
/// compose buffer sits after the last message.  `author` is the account
/// composing; `new` marks a widget opened to compose a brand-new thread,
/// which cannot leave edit mode.
#[derive(Clone, Debug)]
pub struct MessagesWidget {
    pub author: String,
    pub authors: Vec<String>,
    pub messages: Vec<Vec<String>>,
    pub buffer: TextEditBuffer,
    pub selected_message: usize,
    pub selected_row: usize,
    pub focused: bool,
    pub editing: bool,
    pub vp: Viewport,
    pub new: bool,
}

impl MessagesWidget {
    /// The length of the list the widget is currently scrolling over: the
    /// compose buffer's rows in edit mode, the selected message's rows
    /// otherwise.  Never zero.
    pub open spec fn cur_len(self) -> int {
        if self.editing {
            self.buffer.rows@.len() as int
        } else {
            self.messages@[self.selected_message as int]@.len() as int
        }
    }

    /// The row the widget is currently on: the compose cursor in edit mode,
    /// the selected row otherwise.
    pub open spec fn cur_sel(self) -> int {
        if self.editing {
            self.buffer.cursor as int
        } else {
            self.selected_row as int
        }
    }

    pub open spec fn wf(self) -> bool {
        &&& self.authors@.len() == self.messages@.len()
        &&& self.messages@.len() >= 1
        &&& forall|i: int| 0 <= i < self.messages@.len() ==> #[trigger] self.messages@[i]@.len() >= 1
        &&& self.selected_message < self.messages@.len()
        &&& self.buffer.wf()
        &&& self.vp.wf()
        &&& self.cur_sel() < self.cur_len()
        &&& self.vp.bottom <= self.cur_len()
    }

    /// The fixed content agrees between two states: messages, their
    /// authors, the composing account and the new-thread flag.
    pub open spec fn same_content(self, other: MessagesWidget) -> bool {
        &&& self.author == other.author
        &&& self.authors == other.authors
        &&& self.messages == other.messages
        &&& self.new == other.new
    }

    /// Everything but the focus flag agrees between two states.
    pub open spec fn same_but_focus(self, other: MessagesWidget) -> bool {
        &&& self.same_content(other)
        &&& self.buffer == other.buffer
        &&& self.selected_message == other.selected_message
        &&& self.selected_row == other.selected_row
        &&& self.editing == other.editing
        &&& self.vp == other.vp
    }

    pub fn new(authors: Vec<String>, messages: Vec<Vec<String>>, author: String, new: bool) -> (w:
        MessagesWidget)
        requires
            authors@.len() == messages@.len(),
            messages@.len() >= 1,
            forall|i: int| 0 <= i < messages@.len() ==> #[trigger] messages@[i]@.len() >= 1,
        ensures
            w.wf(),
            w.author == author,
            w.authors == authors,
            w.messages == messages,
            w.new == new,
            w.editing == new,
            w.buffer.row_views() =~= seq![Seq::<char>::empty()],
            w.buffer.cursor == 0,
            w.selected_message == 0,
            w.selected_row == 0,
            !w.focused,
            w.vp.top == 0 && w.vp.bottom == 0,
    {
        MessagesWidget {
            author,
            authors,
            messages,
            buffer: TextEditBuffer::new(),
            selected_message: 0,
            selected_row: 0,
            focused: false,
            editing: new,
            vp: Viewport::new(),
            new,
        }
    }

    pub fn focus(&mut self)
        ensures
            final(self).focused,
            final(self).same_but_focus(*old(self)),
            old(self).wf() ==> final(self).wf(),
    {
        self.focused = true;
    }

    pub fn unfocus(&mut self)
        ensures
            !final(self).focused,
            final(self).same_but_focus(*old(self)),
            old(self).wf() ==> final(self).wf(),
    {
        self.focused = false;
    }

    /// Reset the window to the room inside the frame (`height - 4` rows,
    /// under the two header lines) if the size changed, keep the current
    /// row visible, and in edit mode truncate every draft row to the room
    /// inside the frame (`width - 2` columns).
    pub fn resize(&mut self, height: usize, width: usize)
        requires
            old(self).wf(),
            height >= 4,
            width >= 2,
        ensures
            final(self).wf(),
            final(self).same_content(*old(self)),
            final(self).focused == old(self).focused,
            final(self).editing == old(self).editing,
            final(self).selected_message == old(self).selected_message,
            final(self).selected_row == old(self).selected_row,
            final(self).buffer.cursor == old(self).buffer.cursor,
            (final(self).vp.top as int, final(self).vp.bottom as int) == recomputed(
                old(self).vp.top as int,
                old(self).vp.bottom as int,
                old(self).cur_sel(),
                old(self).cur_len(),
                (height - 4) as int,
            ),
            old(self).editing ==> final(self).buffer.row_views() =~= Seq::new(
                old(self).buffer.row_views().len(),
                |i: int|
                    {
                        let r = old(self).buffer.row_views()[i];
                        if r.len() <= width - 2 {
                            r
                        } else {
                            r.take((width - 2) as int)
                        }
                    },
            ),
            !old(self).editing ==> final(self).buffer == old(self).buffer,
            ({
                let size = if old(self).cur_len() <= height - 4 {
                    old(self).cur_len()
                } else {
                    (height - 4) as int
                };
                size >= 1 && old(self).vp.bottom - old(self).vp.top != size ==> contains_sel(
                    final(self).vp.top as int,
                    final(self).vp.bottom as int,
                    old(self).cur_sel(),
                )
            }),
    {
        let len = if self.editing {
            self.buffer.rows.len()
        } else {
            self.messages[self.selected_message].len()
        };
        let sel = if self.editing {
            self.buffer.cursor
        } else {
            self.selected_row
        };
        proof {
            if height - 4 >= 1 {
                lemma_recompute_keeps_selection_visible(
                    self.vp.top as int,
                    self.vp.bottom as int,
                    self.cur_sel(),
                    self.cur_len(),
                    height - 4,
                );
            }
        }
        self.vp.recompute(sel, len, height - 4);
        if self.editing {
            self.buffer.resize(width);
        }
    }

    /// Shift the window until the current row is inside it.
    pub fn scroll(&mut self)
        requires
            old(self).wf(),
        ensures
            final(self).wf(),
            final(self).same_content(*old(self)),
            final(self).focused == old(self).focused,
            final(self).editing == old(self).editing,
            final(self).buffer == old(self).buffer,
            final(self).selected_message == old(self).selected_message,
            final(self).selected_row == old(self).selected_row,
            (final(self).vp.top as int, final(self).vp.bottom as int) == adjusted(
                old(self).vp.top as int,
                old(self).vp.bottom as int,
                old(self).cur_sel(),
            ),
    {
        let sel = if self.editing {
            self.buffer.cursor
        } else {
            self.selected_row
        };
        proof {
            vstd::std_specs::vec::axiom_spec_len(&self.buffer.rows);
            vstd::std_specs::vec::axiom_spec_len(&self.messages@[self.selected_message as int]);
        }
        self.vp.adjust(sel);
    }

    /// The update relation: how one key press relates the new state and the
    /// returned request to the old state.  `update` ensures exactly this.
    pub open spec fn step(pre: MessagesWidget, post: MessagesWidget, key: KeyEvent, a: WidgetAction) -> bool {
        &&& post.same_content(pre)
        &&& post.focused == pre.focused
        &&& (!pre.focused ==> post == pre && a == WidgetAction::Nothing)
        &&& (pre.focused && key == plain_key(Key::Down) ==> a == WidgetAction::Nothing
            && post.editing == pre.editing && post.selected_message == pre.selected_message
            && post.buffer.rows == pre.buffer.rows && post.cur_sel() == moved(
            pre.cur_sel(),
            pre.cur_len(),
            SelMove::Down,
        ) && (post.vp.top as int, post.vp.bottom as int) == adjusted(
            pre.vp.top as int,
            pre.vp.bottom as int,
            post.cur_sel(),
        ) && (pre.editing ==> post.selected_row == pre.selected_row) && (!pre.editing
            ==> post.buffer == pre.buffer))
        &&& (pre.focused && key == plain_key(Key::Up) ==> a == WidgetAction::Nothing
            && post.editing == pre.editing && post.selected_message == pre.selected_message
            && post.buffer.rows == pre.buffer.rows && post.cur_sel() == moved(
            pre.cur_sel(),
            pre.cur_len(),
            SelMove::Up,
        ) && (post.vp.top as int, post.vp.bottom as int) == adjusted(
            pre.vp.top as int,
            pre.vp.bottom as int,
            post.cur_sel(),
        ) && (pre.editing ==> post.selected_row == pre.selected_row) && (!pre.editing
            ==> post.buffer == pre.buffer))
        &&& (pre.focused && key == plain_key(Key::Left) ==> a == WidgetAction::Nothing && ({
            if pre.new {
                post == pre
            } else if pre.editing {
                &&& !post.editing
                &&& post.selected_message == pre.messages@.len() - 1
                &&& post.selected_row == 0
                &&& post.vp.top == 0 && post.vp.bottom == 0
                &&& post.buffer == pre.buffer
            } else if pre.selected_message > 0 {
                &&& !post.editing
                &&& post.selected_message == pre.selected_message - 1
                &&& post.selected_row == 0
                &&& post.vp.top == 0 && post.vp.bottom == 0
                &&& post.buffer == pre.buffer
            } else {
                post == pre
            }
        }))
        &&& (pre.focused && key == plain_key(Key::Right) ==> a == WidgetAction::Nothing && ({
            if pre.editing {
                post == pre
            } else if pre.selected_message == pre.messages@.len() - 1 {
                &&& post.editing
                &&& post.selected_message == pre.selected_message
                &&& post.selected_row == 0
                &&& post.buffer.rows == pre.buffer.rows
                &&& post.buffer.cursor == 0
                &&& post.vp.top == 0 && post.vp.bottom == 0
            } else {
                &&& !post.editing
                &&& post.selected_message == pre.selected_message + 1
                &&& post.selected_row == 0
                &&& post.buffer == pre.buffer
                &&& post.vp.top == 0 && post.vp.bottom == 0
            }
        }))
        &&& (pre.focused && key == plain_key(Key::Enter) ==> a == WidgetAction::Nothing && ({
            if pre.editing {
                &&& post.editing
                &&& post.selected_message == pre.selected_message
                &&& post.selected_row == pre.selected_row
                &&& post.buffer.row_views() =~= pre.buffer.row_views().insert(
                    pre.buffer.cursor + 1,
                    Seq::<char>::empty(),
                )
                &&& post.buffer.cursor == pre.buffer.cursor + 1
                &&& (post.vp.top as int, post.vp.bottom as int) == ({
                    let w = if pre.buffer.cursor + 1 < pre.buffer.rows@.len() && pre.vp.top
                        < pre.vp.bottom {
                        (pre.vp.top as int, pre.vp.bottom - 1)
                    } else {
                        (pre.vp.top as int, pre.vp.bottom as int)
                    };
                    adjusted(w.0, w.1, pre.buffer.cursor + 1)
                })
            } else {
                post == pre
            }
        }))
        &&& (pre.focused && key == plain_key(Key::Backspace) ==> a == WidgetAction::Nothing && ({
            if pre.editing {
                &&& post.editing
                &&& post.selected_message == pre.selected_message
                &&& post.selected_row == pre.selected_row
                &&& post.buffer.cursor == if pre.buffer.cursor > 0 {
                    (pre.buffer.cursor - 1) as usize
                } else {
                    0usize
                }
                &&& (pre.buffer.rows@.len() > 1 ==> post.buffer.row_views()
                    =~= pre.buffer.row_views().remove(pre.buffer.cursor as int))
                &&& (pre.buffer.rows@.len() == 1 ==> post.buffer.row_views() =~= seq![
                    Seq::<char>::empty(),
                ])
                &&& (post.vp.top as int, post.vp.bottom as int) == ({
                    let nlen = post.buffer.rows@.len() as int;
                    let b = if pre.vp.bottom <= nlen {
                        pre.vp.bottom as int
                    } else {
                        nlen
                    };
                    let t = if pre.vp.top <= b {
                        pre.vp.top as int
                    } else {
                        b
                    };
                    if t < b {
                        adjusted(t, b, post.buffer.cursor as int)
                    } else {
                        (t, b)
                    }
                })
            } else {
                post == pre
            }
        }))
        &&& (pre.focused && key == plain_key(Key::Insert) ==> post == pre && ({
            if pre.buffer.submitted().len() == 0 {
                a == WidgetAction::Nothing
            } else {
                a matches WidgetAction::Submit { content } && content@ == pre.buffer.submitted()
            }
        }))
        &&& (pre.focused && (key.mods == Mods::Plain || key.mods == Mods::Shift) && (key.code
            matches Key::Char(c)) ==> a == WidgetAction::Nothing && ({
            if pre.editing {
                &&& post.editing
                &&& post.selected_message == pre.selected_message
                &&& post.selected_row == pre.selected_row
                &&& post.vp == pre.vp
                &&& post.buffer.cursor == pre.buffer.cursor
                &&& (key.code matches Key::Char(c) ==> {
                    if crate::text::insertable(c) {
                        post.buffer.row_views() =~= pre.buffer.row_views().update(
                            pre.buffer.cursor as int,
                            pre.buffer.row_views()[pre.buffer.cursor as int].push(c),
                        )
                    } else {
                        post.buffer.row_views() =~= pre.buffer.row_views()
                    }
                })
            } else {
                post == pre
            }
        }))
        &&& (pre.focused && key.mods == Mods::Plain && !(key.code is Down || key.code is Up
            || key.code is Left || key.code is Right || key.code is Enter || key.code is Backspace
            || key.code is Insert || (key.code matches Key::Char(_))) ==> post == pre && a
            == WidgetAction::Nothing)
        &&& (pre.focused && key.mods == Mods::Shift && !(key.code matches Key::Char(_)) ==> post
            == pre && a == WidgetAction::Nothing)
        &&& (pre.focused && (key.mods == Mods::Control || key.mods == Mods::Other) ==> post == pre
            && a == WidgetAction::Nothing)
    }

    /// Handle one key press while this widget is focused.  Down/Up move the
    /// current row (the compose cursor in edit mode) and keep it visible;
    /// Left moves to the previous message or leaves edit mode; Right moves
    /// to the next message or, past the last message, enters edit mode;
    /// Enter, Backspace and (possibly shifted) character keys edit the
    /// draft, Backspace keeping the moved cursor row visible whenever the
    /// window shows rows at all; Insert
    /// submits the draft when it trims to something non-empty.  An
    /// unfocused widget ignores every key.
    pub fn update(&mut self, key: KeyEvent) -> (a: WidgetAction)
        requires
            old(self).wf(),
        ensures
            final(self).wf(),
            MessagesWidget::step(*old(self), *final(self), key, a),
    {
        if !self.focused {
            return WidgetAction::Nothing;
        }
        match key.mods {
            Mods::Plain => {
                match key.code {
                    Key::Down => {
                        if self.editing {
                            self.buffer.cursor_down();
                        } else {
                            let mlen = self.messages[self.selected_message].len();
                            if self.selected_row + 1 < mlen {
                                self.selected_row = self.selected_row + 1;
                            }
                        }
                        self.scroll();
                        WidgetAction::Nothing
                    },
                    Key::Up => {
                        if self.editing {
                            self.buffer.cursor_up();
                        } else {
                            if self.selected_row > 0 {
                                self.selected_row = self.selected_row - 1;
                            }
                        }
                        self.scroll();
                        WidgetAction::Nothing
                    },
                    Key::Left => {
                        if self.new {
                            return WidgetAction::Nothing;
                        }
                        if self.editing {
                            self.editing = false;
                            self.selected_message = self.messages.len() - 1;
                            self.selected_row = 0;
                            self.vp = Viewport::new();
                        } else if self.selected_message > 0 {
                            self.selected_message = self.selected_message - 1;
                            self.selected_row = 0;
                            self.vp = Viewport::new();
                        }
                        WidgetAction::Nothing
                    },
                    Key::Right => {
                        if !self.editing {
                            if self.selected_message == self.messages.len() - 1 {
                                self.editing = true;
                                self.selected_row = 0;
                                self.buffer.cursor_to_start();
                                self.vp = Viewport::new();
                            } else {
                                self.selected_message = self.selected_message + 1;
                                self.selected_row = 0;
                                self.vp = Viewport::new();
                            }
                        }
                        WidgetAction::Nothing
                    },
                    Key::Enter => {
                        if self.editing {
                            let rlen = self.buffer.rows.len();
                            let at_last = self.buffer.cursor + 1 == rlen;
                            self.buffer.newline();
                            if !at_last {
                                if self.vp.top < self.vp.bottom {
                                    self.vp.bottom = self.vp.bottom - 1;
                                }
                            }
                            self.scroll();
                        }
                        WidgetAction::Nothing
                    },
                    Key::Backspace => {
                        if self.editing {
                            self.buffer.backspace();
                            let n = self.buffer.rows.len();
                            if self.vp.bottom > n {
                                self.vp.bottom = n;
                            }
                            if self.vp.top > self.vp.bottom {
                                self.vp.top = self.vp.bottom;
                            }
                            // A collapsed window (before the first resize) is
                            // left alone, as a deletion is no selection change
                            // there; a window showing rows follows the cursor.
                            if self.vp.top < self.vp.bottom {
                                self.scroll();
                            }
                        }
                        WidgetAction::Nothing
                    },
                    Key::Insert => {
                        let content = self.buffer.submit_text();
                        if content.as_str().is_empty() {
                            WidgetAction::Nothing
                        } else {
                            WidgetAction::Submit { content }
                        }
                    },
                    Key::Char(c) => {
                        if self.editing {
                            self.buffer.insert_char(c);
                        }
                        WidgetAction::Nothing
                    },
                    _ => WidgetAction::Nothing,
                }
            },
            Mods::Shift => {
                match key.code {
                    Key::Char(c) => {
                        if self.editing {
                            self.buffer.insert_char(c);
                        }
                        WidgetAction::Nothing
                    },
                    _ => WidgetAction::Nothing,
                }
            },
            _ => WidgetAction::Nothing,
        }
    }
}

} // verus!
