//! The focusable units a page is composed of.  Each widget owns its content,
//! its selection and (for list widgets) a viewport scroller, and handles the
//! key events routed to it while focused.

pub mod account;
pub mod bio;
pub mod group;
pub mod location;
pub mod messages;
pub mod page;
pub mod subgroups;
pub mod threads;
pub mod user;
