use lush::line_buffer::{char_is_control, LineBuffer};

fn typed(text: &str) -> LineBuffer {
    let mut buffer = LineBuffer::new();
    for c in text.chars() {
        assert!(buffer.insert_char(c));
    }
    buffer
}

#[test]
fn new_buffer_is_empty() {
    let buffer = LineBuffer::new();
    assert!(buffer.is_empty());
    assert_eq!(buffer.len(), 0);
    assert_eq!(buffer.cursor_from_end(), 0);
    assert_eq!(buffer.text(), "");
    assert_eq!(buffer.tail(), "");
}

#[test]
fn typing_at_the_end_appends() {
    let buffer = typed("echo hi");
    assert_eq!(buffer.text(), "echo hi");
    assert_eq!(buffer.len(), 7);
    assert_eq!(buffer.cursor_from_end(), 0);
}

#[test]
fn typed_then_edited_scenario() {
    let mut buffer = typed("cdb");
    assert_eq!(buffer.text(), "cdb");
    assert_eq!(buffer.cursor_from_end(), 0);
    assert!(buffer.move_left());
    assert!(buffer.move_left());
    assert_eq!(buffer.cursor_from_end(), 2);
    assert!(buffer.delete_before_cursor());
    assert_eq!(buffer.text(), "db");
    assert_eq!(buffer.cursor_from_end(), 2);
    assert!(buffer.move_right());
    assert_eq!(buffer.cursor_from_end(), 1);
    buffer.insert_char('x');
    assert_eq!(buffer.text(), "dxb");
    assert_eq!(buffer.cursor_from_end(), 1);
}

#[test]
fn insert_in_the_middle_keeps_the_tail() {
    let mut buffer = typed("abcd");
    buffer.move_left();
    buffer.move_left();
    buffer.insert_char('X');
    assert_eq!(buffer.text(), "abXcd");
    assert_eq!(buffer.cursor_from_end(), 2);
    assert_eq!(buffer.tail(), "cd");
}

#[test]
fn insert_at_the_start() {
    let mut buffer = typed("bc");
    buffer.move_left();
    buffer.move_left();
    buffer.insert_char('a');
    assert_eq!(buffer.text(), "abc");
    assert_eq!(buffer.cursor_from_end(), 2);
}

#[test]
fn edits_on_an_empty_buffer_do_nothing() {
    let mut buffer = LineBuffer::new();
    assert!(!buffer.delete_before_cursor());
    assert!(!buffer.delete_at_cursor());
    assert!(!buffer.move_left());
    assert!(!buffer.move_right());
    assert!(buffer.is_empty());
    assert_eq!(buffer.cursor_from_end(), 0);
}

#[test]
fn cursor_at_the_start() {
    let mut buffer = typed("abc");
    for _ in 0..3 {
        assert!(buffer.move_left());
    }
    assert_eq!(buffer.cursor_from_end(), 3);
    // Backspace and Left are stopped.
    assert!(!buffer.delete_before_cursor());
    assert!(!buffer.move_left());
    assert_eq!(buffer.text(), "abc");
    assert_eq!(buffer.cursor_from_end(), 3);
    // Delete takes the first character; the cursor stays at the start.
    assert!(buffer.delete_at_cursor());
    assert_eq!(buffer.text(), "bc");
    assert_eq!(buffer.cursor_from_end(), 2);
    assert!(buffer.move_right());
    assert_eq!(buffer.cursor_from_end(), 1);
}

#[test]
fn cursor_at_the_end() {
    let mut buffer = typed("abc");
    // Delete and Right are stopped.
    assert!(!buffer.delete_at_cursor());
    assert!(!buffer.move_right());
    assert_eq!(buffer.text(), "abc");
    assert_eq!(buffer.cursor_from_end(), 0);
    // Backspace takes the last character.
    assert!(buffer.delete_before_cursor());
    assert_eq!(buffer.text(), "ab");
    assert_eq!(buffer.cursor_from_end(), 0);
    assert!(buffer.move_left());
    assert_eq!(buffer.cursor_from_end(), 1);
}

#[test]
fn cursor_in_the_middle() {
    let mut buffer = typed("abcd");
    buffer.move_left();
    buffer.move_left();
    assert!(buffer.delete_before_cursor());
    assert_eq!(buffer.text(), "acd");
    assert_eq!(buffer.cursor_from_end(), 2);
    assert!(buffer.delete_at_cursor());
    assert_eq!(buffer.text(), "ad");
    assert_eq!(buffer.cursor_from_end(), 1);
    assert!(buffer.move_left());
    assert_eq!(buffer.cursor_from_end(), 2);
    assert!(buffer.move_right());
    assert_eq!(buffer.cursor_from_end(), 1);
}

#[test]
fn left_then_right_comes_back() {
    let mut buffer = typed("abc");
    buffer.move_left();
    assert!(buffer.move_left());
    assert!(buffer.move_right());
    assert_eq!(buffer.cursor_from_end(), 1);
    assert!(buffer.move_right());
    assert!(buffer.move_left());
    assert_eq!(buffer.cursor_from_end(), 1);
}

#[test]
fn a_stopped_move_stays_stopped() {
    let mut buffer = typed("ab");
    assert!(!buffer.move_right());
    assert!(!buffer.move_right());
    assert_eq!(buffer.cursor_from_end(), 0);
    buffer.move_left();
    buffer.move_left();
    assert!(!buffer.move_left());
    assert!(!buffer.move_left());
    assert_eq!(buffer.cursor_from_end(), 2);
}

#[test]
fn backspace_on_empty_leaves_empty() {
    let mut buffer = LineBuffer::new();
    buffer.delete_before_cursor();
    assert_eq!(buffer.text(), "");
    assert_eq!(buffer.cursor_from_end(), 0);
}

#[test]
fn delete_at_the_end_changes_nothing() {
    let mut buffer = typed("xyz");
    assert!(!buffer.delete_at_cursor());
    assert_eq!(buffer.text(), "xyz");
    assert_eq!(buffer.cursor_from_end(), 0);
}

#[test]
fn insert_then_delete_restores() {
    let mut buffer = typed("hello");
    buffer.move_left();
    buffer.move_left();
    buffer.insert_char('X');
    assert_eq!(buffer.text(), "helXlo");
    buffer.move_left();
    assert!(buffer.delete_at_cursor());
    assert_eq!(buffer.text(), "hello");
    assert_eq!(buffer.cursor_from_end(), 2);

    buffer.insert_char('Y');
    assert!(buffer.delete_before_cursor());
    assert_eq!(buffer.text(), "hello");
    assert_eq!(buffer.cursor_from_end(), 2);
}

#[test]
fn control_characters_are_left_out() {
    let mut buffer = typed("ab");
    buffer.move_left();
    for c in ['\u{0}', '\t', '\n', '\r', '\u{1b}', '\u{7f}', '\u{85}', '\u{9f}'] {
        assert!(!buffer.insert_char(c));
        assert_eq!(buffer.text(), "ab");
        assert_eq!(buffer.cursor_from_end(), 1);
    }
    assert!(buffer.insert_char('\u{a0}'));
    assert_eq!(buffer.text(), "a\u{a0}b");
}

#[test]
fn reset_empties() {
    let mut buffer = typed("abc");
    buffer.move_left();
    buffer.reset();
    assert!(buffer.is_empty());
    assert_eq!(buffer.cursor_from_end(), 0);
}

#[test]
fn characters_are_counted_not_bytes() {
    let mut buffer = typed("héé");
    assert_eq!(buffer.len(), 3);
    buffer.move_left();
    assert!(buffer.delete_before_cursor());
    assert_eq!(buffer.text(), "hé");
    assert_eq!(buffer.tail(), "é");
}

#[test]
fn control_characters() {
    assert!(char_is_control('\u{0}'));
    assert!(char_is_control('\u{1f}'));
    assert!(!char_is_control(' '));
    assert!(!char_is_control('~'));
    assert!(char_is_control('\u{7f}'));
    assert!(char_is_control('\u{9f}'));
    assert!(!char_is_control('\u{a0}'));
    for c in (0..=0x10ffffu32).filter_map(char::from_u32) {
        assert_eq!(char_is_control(c), c.is_control(), "{:?}", c);
    }
}
