//! The application state: an ordered stack of pages.  The top page is
//! active; pushing and popping drive navigation, and emptying the stack
//! signals exit.  `update` routes one key press to the top page, applies a
//! `PopPage` request against the stack itself, and hands every other
//! action back to the caller, who performs the fetches it names and pushes
//! the resulting page.

use vstd::prelude::*;
use crate::action::Action;
use crate::input::{plain_key, Key, KeyEvent};
use crate::widgets::page::{GroupPage, ThreadPage, UserPage};

verus! {

/// One entry of the page stack.
#[derive(Clone, Debug)]
pub enum AppPage {
    User(UserPage),
    Group(GroupPage),
    Thread(ThreadPage),
}

/// Whether a stack entry's page is well formed.
pub open spec fn page_wf(p: AppPage) -> bool {
    match p {
        AppPage::User(up) => up.wf(),
        AppPage::Group(gp) => gp.wf(),
        AppPage::Thread(tp) => tp.wf(),
    }
}

/// The navigation state: the page stack, top last.
#[derive(Clone, Debug)]
pub struct App {
    pub route: Vec<AppPage>,
}

impl App {
    pub open spec fn wf(self) -> bool {
        forall|i: int| 0 <= i < self.route@.len() ==> page_wf(#[trigger] self.route@[i])
    }

    /// An application with no page yet.
    pub fn new() -> (app: App)
        ensures
            app.wf(),
            app.route@.len() == 0,
    {
        App { route: Vec::new() }
    }

    /// Enter the first page: the top-level group.
    pub fn start(&mut self, first: GroupPage)
        requires
            first.wf(),
        ensures
            final(self).route@ == old(self).route@.push(AppPage::Group(first)),
            old(self).wf() ==> final(self).wf(),
    {
        self.route.push(AppPage::Group(first));
    }

    /// One timer tick.  No page reacts to ticks, so the state is unchanged;
    /// a tick is only meaningful while a page is shown.
    pub fn tick(&mut self)
        requires
            old(self).route@.len() > 0,
        ensures
            *final(self) == *old(self),
    {
    }

    /// Route one key press to the top page.  Returns whether the
    /// application should keep running (the stack is still non-empty) and
    /// the action the page asked for.  A `PopPage` action is applied here
    /// against the stack; the push and submit actions are returned for the
    /// caller to perform, since they need fetched content.  A page asks to
    /// pop exactly on a plain Esc.
    pub fn update(&mut self, key: KeyEvent) -> (r: (bool, Action))
        requires
            old(self).wf(),
        ensures
            final(self).wf(),
            r.0 == (final(self).route@.len() > 0),
            old(self).route@.len() == 0 ==> *final(self) == *old(self) && r.1 == Action::Nothing,
            old(self).route@.len() > 0 ==> {
                &&& (r.1 is PopPage <==> key == plain_key(Key::Esc))
                &&& (r.1 is PopPage ==> final(self).route@ == old(self).route@.drop_last())
                &&& (!(r.1 is PopPage) ==> final(self).route@.len() == old(self).route@.len()
                    && final(self).route@.drop_last() == old(self).route@.drop_last())
                &&& (!(r.1 is PopPage) ==> ({
                    let t = final(self).route@.last();
                    let o = old(self).route@.last();
                    &&& (o matches AppPage::Group(og) ==> (t matches AppPage::Group(tg)
                        && GroupPage::step(og, tg, key, r.1)))
                    &&& (o matches AppPage::Thread(ot) ==> (t matches AppPage::Thread(tt)
                        && ThreadPage::step(ot, tt, key, r.1)))
                    &&& (o matches AppPage::User(ou) ==> (t matches AppPage::User(tu)
                        && UserPage::step(ou, tu, key, r.1)))
                }))
            },
    {
        if self.route.len() == 0 {
            return (false, Action::Nothing);
        }
        let ghost orig = self.route@;
        let mut page = self.route.pop().unwrap();
        let a = match &mut page {
            AppPage::Group(gp) => gp.update(key),
            AppPage::User(up) => up.update(key),
            AppPage::Thread(tp) => tp.update(key),
        };
        self.route.push(page);
        proof {
            assert(self.route@.drop_last() =~= orig.drop_last());
        }
        let popped = matches!(a, Action::PopPage);
        if popped {
            let _ = self.route.pop();
            proof {
                assert(self.route@ =~= orig.drop_last());
            }
        }
        (self.route.len() > 0, a)
    }

    /// Push a page; navigation into a child always succeeds and the stack
    /// has no depth limit.
    pub fn push_page(&mut self, page: AppPage)
        requires
            old(self).wf(),
            page_wf(page),
        ensures
            final(self).wf(),
            final(self).route@ == old(self).route@.push(page),
    {
        self.route.push(page);
    }

    /// Pop the top page, or nothing when the stack is empty.
    pub fn pop_page(&mut self) -> (r: Option<AppPage>)
        requires
            old(self).wf(),
        ensures
            final(self).wf(),
            old(self).route@.len() == 0 ==> *final(self) == *old(self) && r is None,
            old(self).route@.len() > 0 ==> final(self).route@ == old(self).route@.drop_last() && r
                == Some(old(self).route@.last()),
    {
        if self.route.len() == 0 {
            None
        } else {
            self.route.pop()
        }
    }

    /// The top page, or nothing when the stack is empty.
    pub fn get_page(&self) -> (r: Option<&AppPage>)
        ensures
            self.route@.len() == 0 ==> r is None,
            self.route@.len() > 0 ==> (r matches Some(p) && *p == self.route@.last()),
    {
        if self.route.len() == 0 {
            None
        } else {
            Some(&self.route[self.route.len() - 1])
        }
    }
}

} // verus!
