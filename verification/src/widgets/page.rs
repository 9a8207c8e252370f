//! The pages: fixed compositions of widgets with a cyclic focus order.
//! A page routes each key press to its focused widget, cycles focus on
//! Tab, and turns widget requests into `Action` values for the
//! dispatcher.  Each page type has its own closed set of focusable
//! widgets, so focus cycling is exhaustive by construction.

use vstd::prelude::*;
use vstd::string::StringExecFns;
use crate::action::{Action, WidgetAction};
use crate::input::{plain_key, Key, KeyEvent};
use crate::text::{split_line_vec, split_lines};
use crate::viewport::recomputed;
use crate::widgets::account::AccountWidget;
use crate::widgets::location::LocationWidget;
use crate::widgets::messages::MessagesWidget;
use crate::widgets::subgroups::SubgroupsWidget;
use crate::widgets::threads::ThreadsWidget;
use crate::widgets::user::UserWidget;

verus! {

/// The focusable widgets of a thread page, in cycle order.
#[derive(Clone, Copy, PartialEq, Eq, Structural, Debug)]
pub enum ThreadActive {
    Location,
    Messages,
    Account,
}

/// The focusable widgets of a group page, in cycle order.
#[derive(Clone, Copy, PartialEq, Eq, Structural, Debug)]
pub enum GroupActive {
    Location,
    Threads,
    Subgroups,
    Account,
}

/// The focusable widgets of a user page: just the user widget.
#[derive(Clone, Copy, PartialEq, Eq, Structural, Debug)]
pub enum UserActive {
    User,
}

/// Where focus moves when the cycle key is pressed on a thread page.
pub open spec fn thread_cycle_next(a: ThreadActive) -> ThreadActive {
    match a {
        ThreadActive::Location => ThreadActive::Messages,
        ThreadActive::Messages => ThreadActive::Account,
        ThreadActive::Account => ThreadActive::Location,
    }
}

/// Where focus moves when the cycle key is pressed on a group page.
pub open spec fn group_cycle_next(a: GroupActive) -> GroupActive {
    match a {
        GroupActive::Location => GroupActive::Threads,
        GroupActive::Threads => GroupActive::Subgroups,
        GroupActive::Subgroups => GroupActive::Account,
        GroupActive::Account => GroupActive::Location,
    }
}

/// Focus after `n` presses of the cycle key on a group page.
pub open spec fn group_cycle_n(a: GroupActive, n: nat) -> GroupActive
    decreases n,
{
    if n == 0 {
        a
    } else {
        group_cycle_next(group_cycle_n(a, (n - 1) as nat))
    }
}

/// Focus after `n` presses of the cycle key on a thread page.
pub open spec fn thread_cycle_n(a: ThreadActive, n: nat) -> ThreadActive
    decreases n,
{
    if n == 0 {
        a
    } else {
        thread_cycle_next(thread_cycle_n(a, (n - 1) as nat))
    }
}

/// Focus cycling on a group page is a total cyclic permutation: pressing
/// the cycle key exactly as many times as the page has widgets (four)
/// returns focus to the start widget, and no smaller positive number of
/// presses does.
pub proof fn lemma_group_cycle_total(a: GroupActive)
    ensures
        group_cycle_n(a, 4) == a,
        group_cycle_n(a, 1) != a,
        group_cycle_n(a, 2) != a,
        group_cycle_n(a, 3) != a,
{
    assert(group_cycle_n(a, 1) == group_cycle_next(group_cycle_n(a, 0)));
    assert(group_cycle_n(a, 2) == group_cycle_next(group_cycle_n(a, 1)));
    assert(group_cycle_n(a, 3) == group_cycle_next(group_cycle_n(a, 2)));
    assert(group_cycle_n(a, 4) == group_cycle_next(group_cycle_n(a, 3)));
}

/// Focus cycling on a thread page is a total cyclic permutation over its
/// three widgets.
pub proof fn lemma_thread_cycle_total(a: ThreadActive)
    ensures
        thread_cycle_n(a, 3) == a,
        thread_cycle_n(a, 1) != a,
        thread_cycle_n(a, 2) != a,
{
    assert(thread_cycle_n(a, 1) == thread_cycle_next(thread_cycle_n(a, 0)));
    assert(thread_cycle_n(a, 2) == thread_cycle_next(thread_cycle_n(a, 1)));
    assert(thread_cycle_n(a, 3) == thread_cycle_next(thread_cycle_n(a, 2)));
}

/// The path of a child item: the parent path, a slash, the child's name.
fn child_path(base: &String, name: &String) -> (r: String)
    ensures
        r@ == base@ + "/"@ + name@,
{
    let mut r = base.clone();
    r.append("/");
    r.append(name.as_str());
    proof {
        assert(r@ =~= base@ + "/"@ + name@);
    }
    r
}

/// A group's full-screen page: its path, its threads, its child groups and
/// the account bar, with focus cycling over the four widgets.  `node_id` is
/// the group's identifier on the platform, used when the dispatcher fetches
/// content for navigation out of this page.
#[derive(Clone, Debug)]
pub struct GroupPage {
    pub location_widget: LocationWidget,
    pub threads_widget: ThreadsWidget,
    pub subgroups_widget: SubgroupsWidget,
    pub account_widget: AccountWidget,
    pub active: GroupActive,
    pub node_id: String,
    pub group_path: String,
    pub username: String,
}

impl GroupPage {
    /// Exactly the widget named by `active` is focused, and every widget is
    /// itself well formed.
    pub open spec fn wf(self) -> bool {
        &&& self.threads_widget.wf()
        &&& self.subgroups_widget.wf()
        &&& self.location_widget.focused == (self.active is Location)
        &&& self.threads_widget.focused == (self.active is Threads)
        &&& self.subgroups_widget.focused == (self.active is Subgroups)
        &&& self.account_widget.focused == (self.active is Account)
    }

    /// The page identity and the widgets' content agree between two states.
    pub open spec fn same_content(self, other: GroupPage) -> bool {
        &&& self.node_id == other.node_id
        &&& self.group_path == other.group_path
        &&& self.username == other.username
        &&& self.location_widget.loc == other.location_widget.loc
        &&& self.account_widget.account == other.account_widget.account
        &&& self.threads_widget.same_content(other.threads_widget)
        &&& self.subgroups_widget.same_content(other.subgroups_widget)
    }

    /// Everything but the focus flags and the active tag agrees.
    pub open spec fn same_but_focus(self, other: GroupPage) -> bool {
        &&& self.same_content(other)
        &&& self.threads_widget.same_but_focus(other.threads_widget)
        &&& self.subgroups_widget.same_but_focus(other.subgroups_widget)
    }

    /// Build the page from already-fetched content: the child groups' names
    /// and ids, and the threads' titles, ids, author names and author ids.
    /// Focus starts on the location widget.
    pub fn new(
        node_id: String,
        group_path: String,
        username: String,
        sb_list: Vec<String>,
        sbid_list: Vec<String>,
        title_list: Vec<String>,
        tid_list: Vec<String>,
        author_list: Vec<String>,
        aid_list: Vec<String>,
    ) -> (p: GroupPage)
        requires
            sbid_list@.len() == sb_list@.len(),
            tid_list@.len() == title_list@.len(),
            author_list@.len() == title_list@.len(),
            aid_list@.len() == title_list@.len(),
        ensures
            p.wf(),
            p.active is Location,
            p.node_id == node_id,
            p.group_path == group_path,
            p.username == username,
            p.location_widget.loc == group_path,
            p.account_widget.account == username,
            p.threads_widget.threads == title_list,
            p.threads_widget.tids == tid_list,
            p.threads_widget.authors == author_list,
            p.threads_widget.aids == aid_list,
            p.threads_widget.selected_row == 0,
            p.subgroups_widget.subgroups == sb_list,
            p.subgroups_widget.sbids == sbid_list,
            p.subgroups_widget.group == group_path,
            p.subgroups_widget.selected_row == 0,
    {
        let mut lw = LocationWidget::new(group_path.clone());
        lw.focus();
        GroupPage {
            location_widget: lw,
            threads_widget: ThreadsWidget::new(title_list, tid_list, author_list, aid_list),
            subgroups_widget: SubgroupsWidget::new(group_path.clone(), sb_list, sbid_list),
            account_widget: AccountWidget::new(username.clone()),
            active: GroupActive::Location,
            node_id,
            group_path,
            username,
        }
    }

    /// How this page lifts its focused widget's request into an action:
    /// opening a child carries the child's full path (parent path, slash,
    /// name), its id and the account name; everything else asks for nothing.
    pub open spec fn lifts(pre: GroupPage, wa: WidgetAction, a: Action) -> bool {
        match wa {
            WidgetAction::Nothing => a == Action::Nothing,
            WidgetAction::OpenThread { title, thread_id } => a matches Action::PushThread {
                group_path: gp,
                thread_id: tid,
                username: un,
            } && gp@ == pre.group_path@ + "/"@ + title@ && tid == thread_id && un == pre.username,
            WidgetAction::OpenUser { user_id } => a == (Action::PushUser { user_id }),
            WidgetAction::OpenGroup { name, group_id } => a matches Action::PushGroup {
                group_id: gid,
                group_path: gp,
                username: un,
            } && gid == group_id && gp@ == pre.group_path@ + "/"@ + name@ && un == pre.username,
            WidgetAction::Submit { .. } => a == Action::Nothing,
        }
    }

    /// The update relation: Tab cycles focus, Esc asks to pop, Home is
    /// reserved, and every other key is handled by the focused widget, whose
    /// request is lifted by `lifts`.  `update` ensures exactly this.
    pub open spec fn step(pre: GroupPage, post: GroupPage, key: KeyEvent, a: Action) -> bool {
        &&& post.same_content(pre)
        &&& (a is PopPage <==> key == plain_key(Key::Esc))
        &&& (key == plain_key(Key::Esc) ==> post == pre)
        &&& (key == plain_key(Key::Home) ==> post == pre && a == Action::Nothing)
        &&& (key == plain_key(Key::Tab) ==> a == Action::Nothing && post.active == group_cycle_next(
            pre.active,
        ) && post.same_but_focus(pre))
        &&& (key != plain_key(Key::Tab) ==> post.active == pre.active)
        &&& (!(key == plain_key(Key::Tab) || key == plain_key(Key::Esc) || key == plain_key(
            Key::Home,
        )) ==> {
            &&& post.location_widget == pre.location_widget
            &&& post.account_widget == pre.account_widget
            &&& match pre.active {
                GroupActive::Location => post == pre && a == Action::Nothing,
                GroupActive::Account => post == pre && a == Action::Nothing,
                GroupActive::Threads => {
                    &&& post.subgroups_widget == pre.subgroups_widget
                    &&& exists|wa: WidgetAction|
                        #[trigger] ThreadsWidget::step(
                            pre.threads_widget,
                            post.threads_widget,
                            key,
                            wa,
                        ) && GroupPage::lifts(pre, wa, a)
                },
                GroupActive::Subgroups => {
                    &&& post.threads_widget == pre.threads_widget
                    &&& exists|wa: WidgetAction|
                        #[trigger] SubgroupsWidget::step(
                            pre.subgroups_widget,
                            post.subgroups_widget,
                            key,
                            wa,
                        ) && GroupPage::lifts(pre, wa, a)
                },
            }
        })
    }

    /// Handle one key press.  Tab cycles focus, Esc asks to pop the page,
    /// Home is reserved for composing a new thread (not yet available);
    /// every other key goes to the focused widget, whose navigation
    /// requests come back as push actions carrying the child's path and id.
    pub fn update(&mut self, key: KeyEvent) -> (a: Action)
        requires
            old(self).wf(),
        ensures
            final(self).wf(),
            GroupPage::step(*old(self), *final(self), key, a),
    {
        if key.mods == crate::input::Mods::Plain {
            match key.code {
                Key::Tab => {
                    match self.active {
                        GroupActive::Location => {
                            self.location_widget.unfocus();
                            self.threads_widget.focus();
                            self.active = GroupActive::Threads;
                        },
                        GroupActive::Threads => {
                            self.threads_widget.unfocus();
                            self.subgroups_widget.focus();
                            self.active = GroupActive::Subgroups;
                        },
                        GroupActive::Subgroups => {
                            self.subgroups_widget.unfocus();
                            self.account_widget.focus();
                            self.active = GroupActive::Account;
                        },
                        GroupActive::Account => {
                            self.account_widget.unfocus();
                            self.location_widget.focus();
                            self.active = GroupActive::Location;
                        },
                    }
                    return Action::Nothing;
                },
                Key::Esc => {
                    return Action::PopPage;
                },
                Key::Home => {
                    // Composing a new thread from here is not yet available.
                    return Action::Nothing;
                },
                _ => {},
            }
        }
        let wa = match self.active {
            GroupActive::Location => self.location_widget.update(key),
            GroupActive::Threads => self.threads_widget.update(key),
            GroupActive::Subgroups => self.subgroups_widget.update(key),
            GroupActive::Account => self.account_widget.update(key),
        };
        let ghost gwa = wa;
        let a = match wa {
            WidgetAction::OpenThread { title, thread_id } => Action::PushThread {
                group_path: child_path(&self.group_path, &title),
                thread_id,
                username: self.username.clone(),
            },
            WidgetAction::OpenUser { user_id } => Action::PushUser { user_id },
            WidgetAction::OpenGroup { name, group_id } => Action::PushGroup {
                group_id,
                group_path: child_path(&self.group_path, &name),
                username: self.username.clone(),
            },
            WidgetAction::Submit { content: _ } => Action::Nothing,
            WidgetAction::Nothing => Action::Nothing,
        };
        proof {
            assert(GroupPage::lifts(*old(self), gwa, a));
        }
        a
    }

    /// Recompute the two list widgets' windows against the rows available
    /// to each of them after a redraw or a terminal resize.
    pub fn resize(&mut self, threads_height: usize, subgroups_height: usize)
        requires
            old(self).wf(),
            threads_height >= 2,
            subgroups_height >= 2,
        ensures
            final(self).wf(),
            final(self).same_content(*old(self)),
            final(self).active == old(self).active,
            final(self).threads_widget.selected_row == old(self).threads_widget.selected_row,
            final(self).subgroups_widget.selected_row == old(self).subgroups_widget.selected_row,
            (final(self).threads_widget.vp.top as int, final(self).threads_widget.vp.bottom as int)
                == recomputed(
                old(self).threads_widget.vp.top as int,
                old(self).threads_widget.vp.bottom as int,
                old(self).threads_widget.selected_row as int,
                old(self).threads_widget.threads@.len() as int,
                (threads_height - 2) as int,
            ),
            (
                final(self).subgroups_widget.vp.top as int,
                final(self).subgroups_widget.vp.bottom as int,
            ) == recomputed(
                old(self).subgroups_widget.vp.top as int,
                old(self).subgroups_widget.vp.bottom as int,
                old(self).subgroups_widget.selected_row as int,
                old(self).subgroups_widget.subgroups@.len() as int,
                (subgroups_height - 2) as int,
            ),
    {
        self.threads_widget.resize(threads_height);
        self.subgroups_widget.resize(subgroups_height);
    }
}

/// A thread's full-screen page: its path, its messages (body and replies,
/// with the compose buffer) and the account bar, with focus cycling over
/// the three widgets.  `new` marks a page opened to compose a brand-new
/// thread.
#[derive(Clone, Debug)]
pub struct ThreadPage {
    pub location_widget: LocationWidget,
    pub messages_widget: MessagesWidget,
    pub account_widget: AccountWidget,
    pub active: ThreadActive,
    pub new: bool,
    pub group_path: String,
    pub thread_id: String,
    pub username: String,
}

impl ThreadPage {
    /// Exactly the widget named by `active` is focused, and the messages
    /// widget is well formed.
    pub open spec fn wf(self) -> bool {
        &&& self.messages_widget.wf()
        &&& self.location_widget.focused == (self.active is Location)
        &&& self.messages_widget.focused == (self.active is Messages)
        &&& self.account_widget.focused == (self.active is Account)
    }

    /// The page identity and the messages' content agree between two states.
    pub open spec fn same_content(self, other: ThreadPage) -> bool {
        &&& self.group_path == other.group_path
        &&& self.thread_id == other.thread_id
        &&& self.username == other.username
        &&& self.new == other.new
        &&& self.location_widget.loc == other.location_widget.loc
        &&& self.account_widget.account == other.account_widget.account
        &&& self.messages_widget.same_content(other.messages_widget)
    }

    /// Everything but the focus flags and the active tag agrees.
    pub open spec fn same_but_focus(self, other: ThreadPage) -> bool {
        &&& self.same_content(other)
        &&& self.messages_widget.same_but_focus(other.messages_widget)
    }

    /// Build the page from already-fetched content: one author name per
    /// message and one body per message (the thread body first, then its
    /// replies), each body split into rows at newlines.  Focus starts on
    /// the location widget.
    pub fn new(
        group_path: String,
        thread_id: String,
        username: String,
        new: bool,
        authors: Vec<String>,
        bodies: Vec<String>,
    ) -> (p: ThreadPage)
        requires
            authors@.len() == bodies@.len(),
            bodies@.len() >= 1,
        ensures
            p.wf(),
            p.active is Location,
            p.new == new,
            p.group_path == group_path,
            p.thread_id == thread_id,
            p.username == username,
            p.location_widget.loc == group_path,
            p.account_widget.account == username,
            p.messages_widget.author == username,
            p.messages_widget.authors == authors,
            p.messages_widget.new == new,
            p.messages_widget.editing == new,
            p.messages_widget.selected_message == 0,
            p.messages_widget.messages@.len() == bodies@.len(),
            forall|i: int|
                0 <= i < bodies@.len() ==> #[trigger] p.messages_widget.messages@[i].deep_view()
                    == split_lines(bodies@[i]@),
    {
        let mut lw = LocationWidget::new(group_path.clone());
        lw.focus();
        let mut messages: Vec<Vec<String>> = Vec::new();
        let mut i: usize = 0;
        while i < bodies.len()
            invariant
                i <= bodies@.len(),
                messages@.len() == i,
                forall|j: int|
                    0 <= j < i ==> #[trigger] messages@[j].deep_view() == split_lines(bodies@[j]@),
                forall|j: int| 0 <= j < i ==> #[trigger] messages@[j]@.len() >= 1,
            decreases bodies@.len() - i,
        {
            let rows = split_line_vec(bodies[i].clone());
            messages.push(rows);
            i = i + 1;
        }
        ThreadPage {
            location_widget: lw,
            messages_widget: MessagesWidget::new(authors, messages, username.clone(), new),
            account_widget: AccountWidget::new(username.clone()),
            active: ThreadActive::Location,
            new,
            group_path,
            thread_id,
            username,
        }
    }

    /// How this page lifts its focused widget's request into an action: a
    /// submitted draft carries this thread's id; everything else asks for
    /// nothing.
    pub open spec fn lifts(pre: ThreadPage, wa: WidgetAction, a: Action) -> bool {
        match wa {
            WidgetAction::Submit { content } => a matches Action::SubmitReply {
                thread_id: tid,
                content: c,
            } && tid == pre.thread_id && c == content,
            _ => a == Action::Nothing,
        }
    }

    /// The update relation: Tab cycles focus, Esc asks to pop, and every
    /// other key is handled by the focused widget, whose request is lifted
    /// by `lifts`.  `update` ensures exactly this.
    pub open spec fn step(pre: ThreadPage, post: ThreadPage, key: KeyEvent, a: Action) -> bool {
        &&& post.same_content(pre)
        &&& (a is PopPage <==> key == plain_key(Key::Esc))
        &&& (key == plain_key(Key::Esc) ==> post == pre)
        &&& (key == plain_key(Key::Tab) ==> a == Action::Nothing && post.active
            == thread_cycle_next(pre.active) && post.same_but_focus(pre))
        &&& (key != plain_key(Key::Tab) ==> post.active == pre.active)
        &&& (!(key == plain_key(Key::Tab) || key == plain_key(Key::Esc)) ==> {
            &&& post.location_widget == pre.location_widget
            &&& post.account_widget == pre.account_widget
            &&& match pre.active {
                ThreadActive::Location => post == pre && a == Action::Nothing,
                ThreadActive::Account => post == pre && a == Action::Nothing,
                ThreadActive::Messages => exists|wa: WidgetAction|
                    #[trigger] MessagesWidget::step(
                        pre.messages_widget,
                        post.messages_widget,
                        key,
                        wa,
                    ) && ThreadPage::lifts(pre, wa, a),
            }
        })
    }

    /// Handle one key press.  Tab cycles focus, Esc asks to pop the page;
    /// every other key goes to the focused widget, and a submitted draft
    /// comes back as `SubmitReply` carrying this thread's id.
    pub fn update(&mut self, key: KeyEvent) -> (a: Action)
        requires
            old(self).wf(),
        ensures
            final(self).wf(),
            ThreadPage::step(*old(self), *final(self), key, a),
    {
        if key.mods == crate::input::Mods::Plain {
            match key.code {
                Key::Tab => {
                    match self.active {
                        ThreadActive::Location => {
                            self.location_widget.unfocus();
                            self.messages_widget.focus();
                            self.active = ThreadActive::Messages;
                        },
                        ThreadActive::Messages => {
                            self.messages_widget.unfocus();
                            self.account_widget.focus();
                            self.active = ThreadActive::Account;
                        },
                        ThreadActive::Account => {
                            self.account_widget.unfocus();
                            self.location_widget.focus();
                            self.active = ThreadActive::Location;
                        },
                    }
                    return Action::Nothing;
                },
                Key::Esc => {
                    return Action::PopPage;
                },
                _ => {},
            }
        }
        let wa = match self.active {
            ThreadActive::Location => self.location_widget.update(key),
            ThreadActive::Messages => self.messages_widget.update(key),
            ThreadActive::Account => self.account_widget.update(key),
        };
        let ghost gwa = wa;
        let a = match wa {
            WidgetAction::Submit { content } => Action::SubmitReply {
                thread_id: self.thread_id.clone(),
                content,
            },
            _ => Action::Nothing,
        };
        proof {
            assert(ThreadPage::lifts(*old(self), gwa, a));
        }
        a
    }

    /// Recompute the messages widget's window against the area available to
    /// it after a redraw or a terminal resize.
    pub fn resize(&mut self, messages_height: usize, messages_width: usize)
        requires
            old(self).wf(),
            messages_height >= 4,
            messages_width >= 2,
        ensures
            final(self).wf(),
            final(self).same_content(*old(self)),
            final(self).active == old(self).active,
            final(self).messages_widget.editing == old(self).messages_widget.editing,
            final(self).messages_widget.selected_message == old(self).messages_widget.selected_message,
            final(self).messages_widget.selected_row == old(self).messages_widget.selected_row,
            final(self).messages_widget.buffer.cursor == old(self).messages_widget.buffer.cursor,
            (
                final(self).messages_widget.vp.top as int,
                final(self).messages_widget.vp.bottom as int,
            ) == recomputed(
                old(self).messages_widget.vp.top as int,
                old(self).messages_widget.vp.bottom as int,
                old(self).messages_widget.cur_sel(),
                old(self).messages_widget.cur_len(),
                (messages_height - 4) as int,
            ),
            old(self).messages_widget.editing ==> final(self).messages_widget.buffer.row_views()
                =~= Seq::new(
                old(self).messages_widget.buffer.row_views().len(),
                |i: int|
                    {
                        let r = old(self).messages_widget.buffer.row_views()[i];
                        if r.len() <= messages_width - 2 {
                            r
                        } else {
                            r.take((messages_width - 2) as int)
                        }
                    },
            ),
            !old(self).messages_widget.editing ==> final(self).messages_widget.buffer == old(self).messages_widget.buffer,
    {
        self.messages_widget.resize(messages_height, messages_width);
    }
}

/// A user's full-screen page: the user widget alone, so the focus cycle has
/// length one.
#[derive(Clone, Debug)]
pub struct UserPage {
    pub user_widget: UserWidget,
    pub active: UserActive,
}

impl UserPage {
    pub open spec fn wf(self) -> bool {
        self.user_widget.focused == (self.active is User)
    }

    /// Build the page from an already-fetched profile: the user's name and
    /// the day they joined.  The single widget starts focused.
    pub fn new(username: String, joined: u64) -> (p: UserPage)
        ensures
            p.wf(),
            p.active is User,
            p.user_widget.username == username,
            p.user_widget.join_time == joined,
            p.user_widget.focused,
    {
        let mut uw = UserWidget::new(username, joined);
        uw.focus();
        UserPage { user_widget: uw, active: UserActive::User }
    }

    /// The update relation: Esc asks to pop and nothing else has any
    /// effect, the single widget included.  `update` ensures exactly this.
    pub open spec fn step(pre: UserPage, post: UserPage, key: KeyEvent, a: Action) -> bool {
        &&& post == pre
        &&& (a is PopPage <==> key == plain_key(Key::Esc))
        &&& (!(a is PopPage) ==> a == Action::Nothing)
    }

    /// Handle one key press: Esc asks to pop the page, Tab keeps focus on
    /// the only widget, and everything else is routed to it and ignored.
    pub fn update(&mut self, key: KeyEvent) -> (a: Action)
        requires
            old(self).wf(),
        ensures
            final(self).wf(),
            UserPage::step(*old(self), *final(self), key, a),
    {
        if key.mods == crate::input::Mods::Plain {
            match key.code {
                Key::Esc => {
                    return Action::PopPage;
                },
                Key::Tab => {
                    return Action::Nothing;
                },
                _ => {},
            }
        }
        let _ = match self.active {
            UserActive::User => self.user_widget.update(key),
        };
        Action::Nothing
    }

    /// A user page has no scrolling list, so a resize changes nothing.
    pub fn resize(&mut self)
        ensures
            *final(self) == *old(self),
    {
    }
}

/// On a well-formed thread page exactly one widget is focused at any time.
pub proof fn lemma_thread_page_one_focused(p: ThreadPage)
    requires
        p.wf(),
    ensures
        (if p.location_widget.focused {
            1int
        } else {
            0int
        }) + (if p.messages_widget.focused {
            1int
        } else {
            0int
        }) + (if p.account_widget.focused {
            1int
        } else {
            0int
        }) == 1,
{
}

/// On a well-formed group page exactly one widget is focused at any time.
pub proof fn lemma_group_page_one_focused(p: GroupPage)
    requires
        p.wf(),
    ensures
        (if p.location_widget.focused {
            1int
        } else {
            0int
        }) + (if p.threads_widget.focused {
            1int
        } else {
            0int
        }) + (if p.subgroups_widget.focused {
            1int
        } else {
            0int
        }) + (if p.account_widget.focused {
            1int
        } else {
            0int
        }) == 1,
{
}

} // verus!
