//! Core of a terminal client for browsing nested groups, threads and user
//! profiles of a remote social platform: the navigation, focus and viewport
//! state machine, together with the multi-line compose buffer used to draft
//! replies.
//!
//! Everything with real state lives here and is verified: the page stack,
//! per-page focus cycling, scroll-window computation for list widgets, and
//! the text-edit buffer.  Terminal drawing and network calls are left to the
//! surrounding binary, which feeds this crate plain values (key events,
//! already-fetched content) and interprets the `Action` values it returns.

pub mod action;
pub mod app;
pub mod input;
pub mod text;
pub mod textbuf;
pub mod viewport;
pub mod widgets;
