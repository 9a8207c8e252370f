//! Deferred one-shot effects.  A widget's `update` returns a `WidgetAction`;
//! the containing page turns it into an `Action`, the only channel through
//! which a widget can request a page- or application-level effect.  The
//! dispatcher applies each `Action` exactly once, strictly after the
//! widget's local mutation.

use vstd::prelude::*;

verus! {

/// What a single widget asks its page for: nothing, opening a thread, a
/// user profile or a subgroup under the current selection, or submitting
/// the drafted reply.
#[derive(Clone, Debug, PartialEq)]
pub enum WidgetAction {
    Nothing,
    OpenThread { title: String, thread_id: String },
    OpenUser { user_id: String },
    OpenGroup { name: String, group_id: String },
    Submit { content: String },
}

/// What a page asks the dispatcher for.  `PopPage` is applied against the
/// page stack alone; the `Push` variants carry the identifiers captured when
/// the action was built, so the dispatcher can fetch the new page's content;
/// `SubmitReply` carries the drafted text and the thread it belongs to.
#[derive(Clone, Debug, PartialEq)]
pub enum Action {
    Nothing,
    PopPage,
    PushGroup { group_id: String, group_path: String, username: String },
    PushThread { group_path: String, thread_id: String, username: String },
    PushUser { user_id: String },
    SubmitReply { thread_id: String, content: String },
}

} // verus!
