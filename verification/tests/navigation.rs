//! Pages and the page stack: focus cycling, navigation actions with the
//! paths and ids they carry, reply submission, and popping.

use borz::action::Action;
use borz::app::{App, AppPage};
use borz::input::{Key, KeyEvent, Mods};
use borz::widgets::page::{GroupActive, GroupPage, ThreadActive, ThreadPage, UserPage};

fn strings(items: &[&str]) -> Vec<String> {
    items.iter().map(|s| s.to_string()).collect()
}

fn sample_group_page() -> GroupPage {
    GroupPage::new(
        "node0".to_string(),
        "/Universe".to_string(),
        "ada".to_string(),
        strings(&["a", "b", "c"]),
        strings(&["ida", "idb", "idc"]),
        Vec::new(),
        Vec::new(),
        Vec::new(),
        Vec::new(),
    )
}

fn sample_thread_page(new: bool) -> ThreadPage {
    ThreadPage::new(
        "/Universe/t".to_string(),
        "tid9".to_string(),
        "ada".to_string(),
        new,
        strings(&["bob", "eve"]),
        strings(&["first line\nsecond line", "a reply"]),
    )
}

#[test]
fn group_page_down_down_enter_pushes_child_group() {
    let mut p = sample_group_page();
    // Cycle focus Location -> Threads -> Subgroups.
    p.update(KeyEvent::plain(Key::Tab));
    p.update(KeyEvent::plain(Key::Tab));
    assert!(matches!(p.active, GroupActive::Subgroups));
    p.update(KeyEvent::plain(Key::Down));
    p.update(KeyEvent::plain(Key::Down));
    let a = p.update(KeyEvent::plain(Key::Enter));
    assert_eq!(
        a,
        Action::PushGroup {
            group_id: "idc".to_string(),
            group_path: "/Universe/c".to_string(),
            username: "ada".to_string(),
        }
    );
}

#[test]
fn group_page_focus_cycle_returns_after_four_tabs() {
    let mut p = sample_group_page();
    let start = p.active;
    let mut seen = vec![start];
    for _ in 0..4 {
        p.update(KeyEvent::plain(Key::Tab));
        seen.push(p.active);
    }
    assert_eq!(p.active, start);
    // The four intermediate states are pairwise distinct: a single cycle.
    for i in 0..4 {
        for j in 0..i {
            assert_ne!(seen[i], seen[j]);
        }
    }
    assert!(p.location_widget.focused);
    assert!(!p.threads_widget.focused);
    assert!(!p.subgroups_widget.focused);
    assert!(!p.account_widget.focused);
}

#[test]
fn group_page_enter_on_thread_pushes_thread_page() {
    let mut p = GroupPage::new(
        "node0".to_string(),
        "/Universe".to_string(),
        "ada".to_string(),
        Vec::new(),
        Vec::new(),
        strings(&["hello thread"]),
        strings(&["tid1"]),
        strings(&["bob"]),
        strings(&["uid1"]),
    );
    p.update(KeyEvent::plain(Key::Tab));
    assert!(matches!(p.active, GroupActive::Threads));
    let a = p.update(KeyEvent::plain(Key::Enter));
    assert_eq!(
        a,
        Action::PushThread {
            group_path: "/Universe/hello thread".to_string(),
            thread_id: "tid1".to_string(),
            username: "ada".to_string(),
        }
    );
    // On the author column the same key opens the author's profile.
    p.update(KeyEvent::plain(Key::Right));
    let a = p.update(KeyEvent::plain(Key::Enter));
    assert_eq!(a, Action::PushUser { user_id: "uid1".to_string() });
}

#[test]
fn thread_page_focus_cycle_returns_after_three_tabs() {
    let mut p = sample_thread_page(false);
    assert!(matches!(p.active, ThreadActive::Location));
    p.update(KeyEvent::plain(Key::Tab));
    assert!(matches!(p.active, ThreadActive::Messages));
    p.update(KeyEvent::plain(Key::Tab));
    assert!(matches!(p.active, ThreadActive::Account));
    p.update(KeyEvent::plain(Key::Tab));
    assert!(matches!(p.active, ThreadActive::Location));
}

#[test]
fn thread_bodies_are_split_into_rows() {
    let p = sample_thread_page(false);
    let w = &p.messages_widget;
    assert_eq!(w.messages.len(), 2);
    assert_eq!(w.messages[0], strings(&["first line", "second line"]));
    assert_eq!(w.messages[1], strings(&["a reply"]));
    assert_eq!(w.authors, strings(&["bob", "eve"]));
}

#[test]
fn drafting_and_submitting_a_reply() {
    let mut p = sample_thread_page(false);
    p.update(KeyEvent::plain(Key::Tab));
    // Move past the last message into edit mode.
    p.update(KeyEvent::plain(Key::Right));
    p.update(KeyEvent::plain(Key::Right));
    assert!(p.messages_widget.editing);
    for c in "Nice!".chars() {
        let mods = if c.is_ascii_uppercase() { Mods::Shift } else { Mods::Plain };
        p.update(KeyEvent { code: Key::Char(c), mods });
    }
    let a = p.update(KeyEvent::plain(Key::Insert));
    assert_eq!(
        a,
        Action::SubmitReply { thread_id: "tid9".to_string(), content: "Nice!".to_string() }
    );
}

#[test]
fn blank_draft_is_not_submitted() {
    let mut p = sample_thread_page(true);
    p.update(KeyEvent::plain(Key::Tab));
    assert!(p.messages_widget.editing);
    p.update(KeyEvent { code: Key::Char(' '), mods: Mods::Plain });
    let a = p.update(KeyEvent::plain(Key::Insert));
    assert_eq!(a, Action::Nothing);
}

#[test]
fn new_thread_widget_cannot_leave_edit_mode() {
    let mut p = sample_thread_page(true);
    p.update(KeyEvent::plain(Key::Tab));
    assert!(p.messages_widget.editing);
    p.update(KeyEvent::plain(Key::Left));
    assert!(p.messages_widget.editing);
}

#[test]
fn browsing_messages_left_and_right() {
    let mut p = sample_thread_page(false);
    p.update(KeyEvent::plain(Key::Tab));
    let w = &p.messages_widget;
    assert!(!w.editing);
    assert_eq!(w.selected_message, 0);
    p.update(KeyEvent::plain(Key::Right));
    assert_eq!(p.messages_widget.selected_message, 1);
    p.update(KeyEvent::plain(Key::Right));
    assert!(p.messages_widget.editing);
    p.update(KeyEvent::plain(Key::Left));
    assert!(!p.messages_widget.editing);
    assert_eq!(p.messages_widget.selected_message, 1);
    p.update(KeyEvent::plain(Key::Left));
    assert_eq!(p.messages_widget.selected_message, 0);
}

#[test]
fn esc_pops_the_top_page() {
    let mut app = App::new();
    app.start(sample_group_page());
    app.push_page(AppPage::Thread(sample_thread_page(false)));
    assert_eq!(app.route.len(), 2);
    let (running, a) = app.update(KeyEvent::plain(Key::Esc));
    assert!(running);
    assert_eq!(a, Action::PopPage);
    assert!(matches!(app.get_page(), Some(AppPage::Group(_))));
    let (running, _) = app.update(KeyEvent::plain(Key::Esc));
    assert!(!running);
    assert!(app.get_page().is_none());
}

#[test]
fn update_on_empty_stack_does_nothing() {
    let mut app = App::new();
    let (running, a) = app.update(KeyEvent::plain(Key::Down));
    assert!(!running);
    assert_eq!(a, Action::Nothing);
}

#[test]
fn pop_page_returns_pages_in_order() {
    let mut app = App::new();
    app.start(sample_group_page());
    app.push_page(AppPage::User(UserPage::new("bob".to_string(), 17)));
    assert!(matches!(app.pop_page(), Some(AppPage::User(_))));
    assert!(matches!(app.pop_page(), Some(AppPage::Group(_))));
    assert!(app.pop_page().is_none());
}

#[test]
fn user_page_only_reacts_to_esc() {
    let mut p = UserPage::new("bob".to_string(), 1234567890);
    assert!(p.user_widget.focused);
    let a = p.update(KeyEvent::plain(Key::Tab));
    assert_eq!(a, Action::Nothing);
    assert!(p.user_widget.focused);
    let a = p.update(KeyEvent::plain(Key::Down));
    assert_eq!(a, Action::Nothing);
    let a = p.update(KeyEvent::plain(Key::Esc));
    assert_eq!(a, Action::PopPage);
}

#[test]
fn home_key_is_reserved_and_does_nothing() {
    let mut p = sample_group_page();
    let a = p.update(KeyEvent::plain(Key::Home));
    assert_eq!(a, Action::Nothing);
    assert!(matches!(p.active, GroupActive::Location));
}

#[test]
fn modified_keys_do_not_navigate() {
    let mut p = sample_group_page();
    p.update(KeyEvent::plain(Key::Tab));
    p.update(KeyEvent::plain(Key::Tab));
    let a = p.update(KeyEvent { code: Key::Enter, mods: Mods::Control });
    assert_eq!(a, Action::Nothing);
    assert_eq!(p.subgroups_widget.selected_row, 0);
}
