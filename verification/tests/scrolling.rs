//! Viewport behavior through the list widgets: the window follows the
//! selection, resizing keeps the selected row visible, and recomputation
//! is idempotent.

use borz::action::WidgetAction;
use borz::input::{Key, KeyEvent};
use borz::widgets::messages::MessagesWidget;
use borz::widgets::threads::ThreadsWidget;

fn numbered(n: usize, prefix: &str) -> Vec<String> {
    let mut v = Vec::new();
    let mut i = 0;
    while i < n {
        v.push(format!("{}{}", prefix, i));
        i += 1;
    }
    v
}

fn ten_threads() -> ThreadsWidget {
    ThreadsWidget::new(
        numbered(10, "title"),
        numbered(10, "tid"),
        numbered(10, "author"),
        numbered(10, "aid"),
    )
}

#[test]
fn shrinking_keeps_selected_row_visible() {
    let mut w = ten_threads();
    w.focus();
    // Room for all ten rows, then move the selection to row 7.
    w.resize(12);
    assert_eq!((w.vp.top, w.vp.bottom), (0, 10));
    for _ in 0..7 {
        w.update(KeyEvent::plain(Key::Down));
    }
    assert_eq!(w.selected_row, 7);
    // Shrink the available height to 3 rows: the window must follow.
    w.resize(5);
    assert_eq!((w.vp.top, w.vp.bottom), (5, 8));
    assert!(w.vp.top <= w.selected_row && w.selected_row < w.vp.bottom);
}

#[test]
fn recompute_is_idempotent() {
    let mut w = ten_threads();
    w.focus();
    w.resize(12);
    for _ in 0..9 {
        w.update(KeyEvent::plain(Key::Down));
    }
    w.resize(6);
    let once = (w.vp.top, w.vp.bottom);
    w.resize(6);
    assert_eq!((w.vp.top, w.vp.bottom), once);
    w.resize(6);
    assert_eq!((w.vp.top, w.vp.bottom), once);
}

#[test]
fn selection_stays_visible_through_event_sequences() {
    let mut w = ten_threads();
    w.focus();
    w.resize(6);
    let downs = [true, true, true, true, true, false, true, true, true, false, false, true];
    for &down in downs.iter() {
        let key = if down { Key::Down } else { Key::Up };
        w.update(KeyEvent::plain(key));
        assert!(w.vp.top <= w.selected_row && w.selected_row < w.vp.bottom);
        assert_eq!(w.vp.bottom - w.vp.top, 4);
    }
}

#[test]
fn selection_saturates_at_both_ends() {
    let mut w = ten_threads();
    w.focus();
    w.resize(12);
    w.update(KeyEvent::plain(Key::Up));
    assert_eq!(w.selected_row, 0);
    for _ in 0..20 {
        w.update(KeyEvent::plain(Key::Down));
    }
    assert_eq!(w.selected_row, 9);
}

#[test]
fn empty_list_ignores_selection_keys() {
    let mut w = ThreadsWidget::new(Vec::new(), Vec::new(), Vec::new(), Vec::new());
    w.focus();
    w.update(KeyEvent::plain(Key::Down));
    assert_eq!(w.selected_row, 0);
    w.update(KeyEvent::plain(Key::Up));
    assert_eq!(w.selected_row, 0);
}

#[test]
fn unfocused_widget_ignores_keys() {
    let mut w = ten_threads();
    w.resize(12);
    w.update(KeyEvent::plain(Key::Down));
    assert_eq!(w.selected_row, 0);
}

#[test]
fn scroll_window_moves_down_one_row_at_a_time() {
    let mut w = ten_threads();
    w.focus();
    w.resize(5);
    assert_eq!((w.vp.top, w.vp.bottom), (0, 3));
    w.update(KeyEvent::plain(Key::Down));
    w.update(KeyEvent::plain(Key::Down));
    assert_eq!((w.vp.top, w.vp.bottom), (0, 3));
    w.update(KeyEvent::plain(Key::Down));
    assert_eq!((w.vp.top, w.vp.bottom), (1, 4));
}

#[test]
fn recompute_collapses_window_on_empty_list() {
    let mut w = ThreadsWidget::new(Vec::new(), Vec::new(), Vec::new(), Vec::new());
    w.resize(8);
    assert_eq!((w.vp.top, w.vp.bottom), (0, 0));
    w.resize(8);
    assert_eq!((w.vp.top, w.vp.bottom), (0, 0));
}

#[test]
fn backspace_keeps_cursor_row_visible() {
    let mut w = MessagesWidget::new(
        vec!["bob".to_string()],
        vec![vec!["body".to_string()]],
        "ada".to_string(),
        true,
    );
    w.focus();
    // Six draft rows, a window of three, the cursor on the window's top row.
    for _ in 0..5 {
        w.update(KeyEvent::plain(Key::Enter));
    }
    w.resize(7, 12);
    assert_eq!((w.vp.top, w.vp.bottom), (3, 6));
    w.update(KeyEvent::plain(Key::Up));
    w.update(KeyEvent::plain(Key::Up));
    assert_eq!(w.buffer.cursor, 3);
    // Deleting the row moves the cursor above the window; it must follow.
    w.update(KeyEvent::plain(Key::Backspace));
    assert_eq!(w.buffer.cursor, 2);
    assert!(w.vp.top <= w.buffer.cursor && w.buffer.cursor < w.vp.bottom);
}

#[test]
fn backspace_before_any_resize_leaves_collapsed_window() {
    let mut w = MessagesWidget::new(
        vec!["bob".to_string()],
        vec![vec!["body".to_string()]],
        "ada".to_string(),
        true,
    );
    w.focus();
    let a = w.update(KeyEvent::plain(Key::Backspace));
    assert_eq!(a, WidgetAction::Nothing);
    assert_eq!(w.buffer.rows.len(), 1);
    assert!(w.buffer.rows[0].is_empty());
    assert_eq!(w.buffer.cursor, 0);
    assert_eq!((w.vp.top, w.vp.bottom), (0, 0));
}

#[test]
fn messages_resize_is_idempotent_and_keeps_row_visible() {
    let mut w = MessagesWidget::new(
        vec!["bob".to_string()],
        vec![numbered(8, "line")],
        "ada".to_string(),
        false,
    );
    w.focus();
    for _ in 0..7 {
        w.update(KeyEvent::plain(Key::Down));
    }
    assert_eq!(w.selected_row, 7);
    // Room for four of the eight rows: the window must hold the selection.
    w.resize(8, 20);
    assert_eq!((w.vp.top, w.vp.bottom), (4, 8));
    let once = (w.vp.top, w.vp.bottom);
    w.resize(8, 20);
    assert_eq!((w.vp.top, w.vp.bottom), once);
}
