//! The compose buffer: insertion filtering, newlines, row-granularity
//! backspace, destructive truncation and submission.

use borz::textbuf::TextEditBuffer;

fn typed(buf: &mut TextEditBuffer, text: &str) {
    for c in text.chars() {
        buf.insert_char(c);
    }
}

#[test]
fn round_trip_hello_world() {
    let mut buf = TextEditBuffer::new();
    typed(&mut buf, "hello");
    buf.newline();
    typed(&mut buf, "world");
    assert_eq!(buf.submit_text(), "hello\nworld");
}

#[test]
fn backspace_on_single_empty_row_is_noop() {
    let mut buf = TextEditBuffer::new();
    buf.backspace();
    assert_eq!(buf.rows.len(), 1);
    assert!(buf.rows[0].is_empty());
    assert_eq!(buf.cursor, 0);
}

#[test]
fn non_printable_characters_are_dropped() {
    let mut buf = TextEditBuffer::new();
    buf.insert_char('a');
    buf.insert_char('\t');
    buf.insert_char('\u{e9}');
    buf.insert_char('\n');
    buf.insert_char('!');
    buf.insert_char(' ');
    assert_eq!(buf.rows[0].iter().collect::<String>(), "a! ");
}

#[test]
fn newline_mid_buffer_inserts_after_cursor() {
    let mut buf = TextEditBuffer::new();
    typed(&mut buf, "one");
    buf.newline();
    typed(&mut buf, "three");
    buf.cursor_up();
    buf.newline();
    typed(&mut buf, "two");
    assert_eq!(buf.submit_text(), "one\ntwo\nthree");
}

#[test]
fn backspace_deletes_whole_row_and_moves_up() {
    let mut buf = TextEditBuffer::new();
    typed(&mut buf, "keep");
    buf.newline();
    typed(&mut buf, "drop");
    assert_eq!(buf.cursor, 1);
    buf.backspace();
    assert_eq!(buf.cursor, 0);
    assert_eq!(buf.submit_text(), "keep");
}

#[test]
fn backspace_reseeds_after_last_row() {
    let mut buf = TextEditBuffer::new();
    typed(&mut buf, "only");
    buf.backspace();
    assert_eq!(buf.rows.len(), 1);
    assert!(buf.rows[0].is_empty());
    assert_eq!(buf.submit_text(), "");
}

#[test]
fn resize_truncates_every_row() {
    let mut buf = TextEditBuffer::new();
    typed(&mut buf, "abcdefgh");
    buf.newline();
    typed(&mut buf, "ij");
    buf.resize(6);
    assert_eq!(buf.rows[0].iter().collect::<String>(), "abcd");
    assert_eq!(buf.rows[1].iter().collect::<String>(), "ij");
}

#[test]
fn submit_trims_leading_and_trailing_whitespace() {
    let mut buf = TextEditBuffer::new();
    buf.newline();
    typed(&mut buf, "  body of the reply ");
    buf.newline();
    assert_eq!(buf.submit_text(), "body of the reply");
}

#[test]
fn submit_of_blank_buffer_is_empty() {
    let mut buf = TextEditBuffer::new();
    typed(&mut buf, "   ");
    buf.newline();
    assert_eq!(buf.submit_text(), "");
}

#[test]
fn cursor_moves_saturate() {
    let mut buf = TextEditBuffer::new();
    buf.cursor_up();
    assert_eq!(buf.cursor, 0);
    buf.cursor_down();
    assert_eq!(buf.cursor, 0);
    buf.newline();
    buf.cursor_down();
    assert_eq!(buf.cursor, 1);
    buf.cursor_up();
    buf.cursor_up();
    assert_eq!(buf.cursor, 0);
}
