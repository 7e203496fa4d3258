use lush::command::Command;
use lush::editor::{
    decode, handle_event, perform, Action, Event, KeyCode, KeyEvent, KeyEventKind, KeyModifiers,
    PromptRequest, Reaction, ALT, CONTROL, SHIFT,
};
use lush::line_buffer::LineBuffer;
use lush::render::{next_term, print_nextln};
use lush::terminal::DrawOp;

fn key_with(code: KeyCode, bits: u8, kind: KeyEventKind) -> Event {
    Event::Key(KeyEvent { code, modifiers: KeyModifiers { bits }, kind })
}

fn key(code: KeyCode) -> Event {
    key_with(code, 0, KeyEventKind::Press)
}

fn print(text: &str) -> DrawOp {
    DrawOp::Print(text.to_string())
}

fn type_text(buffer: &mut LineBuffer, text: &str) {
    for c in text.chars() {
        handle_event(buffer, key(KeyCode::Char(c)));
    }
}

fn draw_of(reaction: Reaction) -> Vec<DrawOp> {
    assert!(reaction.run.is_none());
    assert!(reaction.prompt.is_none());
    reaction.draw
}

#[test]
fn keys_that_come_up_are_ignored() {
    for code in [
        KeyCode::Enter,
        KeyCode::Left,
        KeyCode::Right,
        KeyCode::Backspace,
        KeyCode::Delete,
        KeyCode::Char('a'),
        KeyCode::Other,
    ] {
        assert_eq!(decode(key_with(code, 0, KeyEventKind::Release)), Action::Nothing);
    }
    assert_eq!(
        decode(key_with(KeyCode::Char('c'), CONTROL, KeyEventKind::Release)),
        Action::Nothing
    );
}

#[test]
fn keys_decode() {
    assert_eq!(decode(key(KeyCode::Enter)), Action::Submit);
    assert_eq!(decode(key(KeyCode::Left)), Action::MoveLeft);
    assert_eq!(decode(key(KeyCode::Right)), Action::MoveRight);
    assert_eq!(decode(key(KeyCode::Backspace)), Action::Backspace);
    assert_eq!(decode(key(KeyCode::Delete)), Action::Delete);
    assert_eq!(decode(key(KeyCode::Char('q'))), Action::Insert('q'));
    assert_eq!(decode(key(KeyCode::Other)), Action::Nothing);
    assert_eq!(decode(Event::Other), Action::Nothing);
    assert_eq!(
        decode(key_with(KeyCode::Enter, SHIFT, KeyEventKind::Repeat)),
        Action::Submit
    );
    assert_eq!(
        decode(key_with(KeyCode::Left, 0, KeyEventKind::Repeat)),
        Action::MoveLeft
    );
}

#[test]
fn control_chords() {
    assert_eq!(
        decode(key_with(KeyCode::Char('c'), CONTROL, KeyEventKind::Press)),
        Action::Interrupt
    );
    assert_eq!(
        decode(key_with(KeyCode::Char('l'), CONTROL, KeyEventKind::Press)),
        Action::ClearScreen
    );
    // Only Control alone, going down, makes a chord.
    assert_eq!(
        decode(key_with(KeyCode::Char('c'), CONTROL | SHIFT, KeyEventKind::Press)),
        Action::Insert('c')
    );
    assert_eq!(
        decode(key_with(KeyCode::Char('c'), CONTROL, KeyEventKind::Repeat)),
        Action::Insert('c')
    );
    assert_eq!(
        decode(key_with(KeyCode::Char('l'), ALT, KeyEventKind::Press)),
        Action::Insert('l')
    );
    assert_eq!(
        decode(key_with(KeyCode::Char('x'), CONTROL, KeyEventKind::Press)),
        Action::Insert('x')
    );
}

#[test]
fn control_characters_are_not_inserted() {
    assert_eq!(decode(key(KeyCode::Char('\u{7}'))), Action::Nothing);
    assert_eq!(decode(key(KeyCode::Char('\u{7f}'))), Action::Nothing);
    let mut buffer = LineBuffer::new();
    let reaction = perform(&mut buffer, Action::Insert('\n'));
    assert!(draw_of(reaction).is_empty());
    assert!(buffer.is_empty());
}

#[test]
fn typing_and_editing_scenario() {
    let mut buffer = LineBuffer::new();
    type_text(&mut buffer, "cdb");
    assert_eq!(buffer.text(), "cdb");
    assert_eq!(buffer.cursor_from_end(), 0);

    handle_event(&mut buffer, key(KeyCode::Left));
    handle_event(&mut buffer, key(KeyCode::Left));
    assert_eq!(buffer.cursor_from_end(), 2);

    handle_event(&mut buffer, key(KeyCode::Backspace));
    assert_eq!(buffer.text(), "db");
    assert_eq!(buffer.cursor_from_end(), 2);

    handle_event(&mut buffer, key(KeyCode::Right));
    assert_eq!(buffer.cursor_from_end(), 1);

    handle_event(&mut buffer, key(KeyCode::Char('x')));
    assert_eq!(buffer.text(), "dxb");
    assert_eq!(buffer.cursor_from_end(), 1);
}

#[test]
fn typing_draws_the_character() {
    let mut buffer = LineBuffer::new();
    let reaction = handle_event(&mut buffer, key(KeyCode::Char('a')));
    assert_eq!(draw_of(reaction), vec![print("a"), DrawOp::Flush]);
}

#[test]
fn typing_before_a_tail_redraws_the_tail() {
    let mut buffer = LineBuffer::new();
    type_text(&mut buffer, "abc");
    handle_event(&mut buffer, key(KeyCode::Left));
    handle_event(&mut buffer, key(KeyCode::Left));
    let reaction = handle_event(&mut buffer, key(KeyCode::Char('X')));
    assert_eq!(
        draw_of(reaction),
        vec![print("Xbc"), print(" "), DrawOp::MoveLeft(3), DrawOp::Flush]
    );
    assert_eq!(buffer.text(), "aXbc");
}

#[test]
fn arrows_move_the_cursor_only_where_the_line_lets_them() {
    let mut buffer = LineBuffer::new();
    assert!(draw_of(handle_event(&mut buffer, key(KeyCode::Left))).is_empty());
    assert!(draw_of(handle_event(&mut buffer, key(KeyCode::Right))).is_empty());
    type_text(&mut buffer, "a");
    assert_eq!(
        draw_of(handle_event(&mut buffer, key(KeyCode::Left))),
        vec![DrawOp::MoveLeft(1), DrawOp::Flush]
    );
    assert!(draw_of(handle_event(&mut buffer, key(KeyCode::Left))).is_empty());
    assert_eq!(
        draw_of(handle_event(&mut buffer, key(KeyCode::Right))),
        vec![DrawOp::MoveRight(1), DrawOp::Flush]
    );
    assert!(draw_of(handle_event(&mut buffer, key(KeyCode::Right))).is_empty());
}

#[test]
fn backspace_redraws_where_it_removed() {
    let mut buffer = LineBuffer::new();
    assert!(draw_of(handle_event(&mut buffer, key(KeyCode::Backspace))).is_empty());
    type_text(&mut buffer, "abc");
    assert_eq!(
        draw_of(handle_event(&mut buffer, key(KeyCode::Backspace))),
        vec![DrawOp::MoveLeft(1), print(" "), DrawOp::MoveLeft(1), DrawOp::Flush]
    );
    assert_eq!(buffer.text(), "ab");
    handle_event(&mut buffer, key(KeyCode::Left));
    assert_eq!(
        draw_of(handle_event(&mut buffer, key(KeyCode::Backspace))),
        vec![
            DrawOp::MoveLeft(1),
            print("b"),
            print(" "),
            DrawOp::MoveLeft(2),
            DrawOp::Flush
        ]
    );
    assert_eq!(buffer.text(), "b");
    assert!(draw_of(handle_event(&mut buffer, key(KeyCode::Backspace))).is_empty());
    assert_eq!(buffer.text(), "b");
}

#[test]
fn delete_redraws_where_it_removed() {
    let mut buffer = LineBuffer::new();
    assert!(draw_of(handle_event(&mut buffer, key(KeyCode::Delete))).is_empty());
    type_text(&mut buffer, "abc");
    assert!(draw_of(handle_event(&mut buffer, key(KeyCode::Delete))).is_empty());
    for _ in 0..3 {
        handle_event(&mut buffer, key(KeyCode::Left));
    }
    assert_eq!(
        draw_of(handle_event(&mut buffer, key(KeyCode::Delete))),
        vec![print("bc"), print(" "), DrawOp::MoveLeft(3), DrawOp::Flush]
    );
    assert_eq!(buffer.text(), "bc");
    assert_eq!(buffer.cursor_from_end(), 2);
    handle_event(&mut buffer, key(KeyCode::Right));
    assert_eq!(
        draw_of(handle_event(&mut buffer, key(KeyCode::Delete))),
        vec![print(" "), DrawOp::MoveLeft(1), DrawOp::Flush]
    );
    assert_eq!(buffer.text(), "b");
    assert_eq!(buffer.cursor_from_end(), 0);
}

#[test]
fn enter_on_an_empty_line_asks_for_a_prompt_on_a_new_line() {
    let mut buffer = LineBuffer::new();
    let reaction = handle_event(&mut buffer, key(KeyCode::Enter));
    assert!(reaction.draw.is_empty());
    assert!(reaction.run.is_none());
    assert_eq!(
        reaction.prompt,
        Some(PromptRequest { newline: true, write_to_eol: None })
    );
    assert!(buffer.is_empty());

    let request = reaction.prompt.unwrap();
    // On the last row the prompt is drawn after a scroll.
    let (ops, _) = next_term(
        23,
        24,
        request.newline,
        request.write_to_eol.as_deref(),
        "p>",
    );
    assert_eq!(
        ops,
        vec![
            DrawOp::ScrollUp(1),
            DrawOp::MoveToNextLine(1),
            DrawOp::CarriageReturn,
            print("p> "),
            DrawOp::Flush
        ]
    );
    // Elsewhere the cursor goes down one line.
    let (ops, _) = next_term(
        10,
        24,
        request.newline,
        request.write_to_eol.as_deref(),
        "p>",
    );
    assert_eq!(
        ops,
        vec![
            DrawOp::MoveToNextLine(1),
            DrawOp::CarriageReturn,
            print("p> "),
            DrawOp::Flush
        ]
    );
}

#[test]
fn enter_on_the_last_row_scrolls_and_one_above_does_not() {
    let mut buffer = LineBuffer::new();
    let request = handle_event(&mut buffer, key(KeyCode::Enter)).prompt.unwrap();
    let height = 40;
    assert_eq!(
        print_nextln(height - 1, height, request.newline, request.write_to_eol.as_deref()),
        vec![DrawOp::ScrollUp(1), DrawOp::MoveToNextLine(1), DrawOp::CarriageReturn]
    );
    assert_eq!(
        print_nextln(height - 2, height, request.newline, request.write_to_eol.as_deref()),
        vec![DrawOp::MoveToNextLine(1), DrawOp::CarriageReturn]
    );
}

#[test]
fn enter_runs_the_line() {
    let mut buffer = LineBuffer::new();
    type_text(&mut buffer, "echo hi");
    let reaction = handle_event(&mut buffer, key(KeyCode::Enter));
    assert_eq!(
        reaction.draw,
        vec![DrawOp::MoveToNextLine(1), DrawOp::CarriageReturn]
    );
    let command: Command = reaction.run.unwrap();
    assert_eq!(command.keyword, "echo");
    assert_eq!(command.args, vec!["hi".to_string()]);
    assert_eq!(
        reaction.prompt,
        Some(PromptRequest { newline: false, write_to_eol: None })
    );
    assert!(buffer.is_empty());
    assert_eq!(buffer.cursor_from_end(), 0);
}

#[test]
fn enter_runs_the_whole_line_wherever_the_cursor_is() {
    let mut buffer = LineBuffer::new();
    type_text(&mut buffer, "  cd   /tmp ");
    handle_event(&mut buffer, key(KeyCode::Left));
    handle_event(&mut buffer, key(KeyCode::Left));
    let reaction = handle_event(&mut buffer, key(KeyCode::Enter));
    let command = reaction.run.unwrap();
    assert_eq!(command.keyword, "cd");
    assert_eq!(command.args, vec!["/tmp".to_string()]);
    assert!(buffer.is_empty());
    assert_eq!(buffer.cursor_from_end(), 0);
}

#[test]
fn enter_on_a_blank_line_runs_nothing() {
    let mut buffer = LineBuffer::new();
    type_text(&mut buffer, "   ");
    let reaction = handle_event(&mut buffer, key(KeyCode::Enter));
    assert!(reaction.draw.is_empty());
    assert!(reaction.run.is_none());
    assert_eq!(
        reaction.prompt,
        Some(PromptRequest { newline: true, write_to_eol: None })
    );
    assert!(buffer.is_empty());
}

#[test]
fn interrupt_gives_the_line_up() {
    let mut buffer = LineBuffer::new();
    type_text(&mut buffer, "sleep 100");
    handle_event(&mut buffer, key(KeyCode::Left));
    let reaction =
        handle_event(&mut buffer, key_with(KeyCode::Char('c'), CONTROL, KeyEventKind::Press));
    assert!(reaction.draw.is_empty());
    assert!(reaction.run.is_none());
    assert_eq!(
        reaction.prompt,
        Some(PromptRequest { newline: true, write_to_eol: Some("^C".to_string()) })
    );
    assert!(buffer.is_empty());
    assert_eq!(buffer.cursor_from_end(), 0);
}

#[test]
fn clear_screen_starts_at_the_top() {
    let mut buffer = LineBuffer::new();
    type_text(&mut buffer, "ls");
    let reaction =
        handle_event(&mut buffer, key_with(KeyCode::Char('l'), CONTROL, KeyEventKind::Press));
    assert_eq!(
        reaction.draw,
        vec![DrawOp::MoveTo(0, 0), DrawOp::ClearAll, DrawOp::EnableLineWrap]
    );
    assert!(reaction.run.is_none());
    assert_eq!(
        reaction.prompt,
        Some(PromptRequest { newline: false, write_to_eol: None })
    );
    assert!(buffer.is_empty());
}

#[test]
fn other_events_change_nothing() {
    let mut buffer = LineBuffer::new();
    type_text(&mut buffer, "ab");
    handle_event(&mut buffer, key(KeyCode::Left));
    for event in [
        Event::Other,
        key(KeyCode::Other),
        key_with(KeyCode::Char('z'), 0, KeyEventKind::Release),
        key(KeyCode::Char('\u{1b}')),
    ] {
        assert!(draw_of(handle_event(&mut buffer, event)).is_empty());
        assert_eq!(buffer.text(), "ab");
        assert_eq!(buffer.cursor_from_end(), 1);
    }
}
