//! The input loop's decisions: what a key does to the line, what is to be
//! drawn for it, and what the driver has to do next.
//!
//! The loop has one state, waiting for input. The driver polls the terminal,
//! hands each event to [`handle_event`], performs what comes back, and polls
//! again.

use vstd::prelude::*;
use crate::command::{Command, CommandView};
use crate::line_buffer::{
    char_is_control, is_control, lemma_edits_keep_wf, LineBuffer, LineView,
};
use crate::render::{
    backspaced_draws, deleted_draws, draw_backspaced, draw_deleted, draw_inserted, draw_moved,
    inserted_draws, moved_draws, prompt_draws,
};
use crate::terminal::{draws, Draw, DrawOp};
use crate::text::{opt_text, texts};
use crate::tokenize::{split_words, words};

verus! {

/// The key of a key event.
#[derive(Clone, Copy, Debug, PartialEq, Eq, Structural)]
pub enum KeyCode {
    Enter,
    Left,
    Right,
    Backspace,
    Delete,
    /// A key that stands for a character.
    Char(char),
    /// Any other key.
    Other,
}

/// Whether a key went down, is held, or came up.
#[derive(Clone, Copy, Debug, PartialEq, Eq, Structural)]
pub enum KeyEventKind {
    Press,
    Repeat,
    Release,
}

/// The modifier keys held with a key, one bit each.
#[derive(Clone, Copy, Debug, PartialEq, Eq, Structural)]
pub struct KeyModifiers {
    pub bits: u8,
}

/// The bit of the Shift key.
pub const SHIFT: u8 = 0x01;

/// The bit of the Control key.
pub const CONTROL: u8 = 0x02;

/// The bit of the Alt key.
pub const ALT: u8 = 0x04;

/// A key event as the terminal delivers it.
#[derive(Clone, Copy, Debug, PartialEq, Eq, Structural)]
pub struct KeyEvent {
    pub code: KeyCode,
    pub modifiers: KeyModifiers,
    pub kind: KeyEventKind,
}

/// What the terminal delivers.
#[derive(Clone, Copy, Debug, PartialEq, Eq, Structural)]
pub enum Event {
    Key(KeyEvent),
    /// Anything that is no key event.
    Other,
}

/// What an event asks for.
#[derive(Clone, Copy, Debug, PartialEq, Eq, Structural)]
pub enum Action {
    /// Nothing: the event is ignored.
    Nothing,
    /// Hand the line in.
    Submit,
    /// Give the line up.
    Interrupt,
    /// Clear the screen.
    ClearScreen,
    MoveLeft,
    MoveRight,
    /// Remove the character left of the cursor.
    Backspace,
    /// Remove the character right of the cursor.
    Delete,
    /// Put this character in at the cursor.
    Insert(char),
}

/// Whether `key` is the chord of Control, and nothing else, with the letter
/// `letter`, going down.
pub open spec fn is_control_chord(key: KeyEvent, letter: char) -> bool {
    &&& key.code == KeyCode::Char(letter)
    &&& key.modifiers.bits == CONTROL
    &&& key.kind == KeyEventKind::Press
}

/// The action an event asks for.
///
/// A key that comes up asks for nothing. Of the others, Enter submits;
/// Control with `c` interrupts and Control with `l` clears the screen; the
/// arrows, Backspace and Delete do what they are named for; any other
/// character that can be displayed is inserted. Everything else asks for
/// nothing.
pub open spec fn action_of(event: Event) -> Action {
    match event {
        Event::Other => Action::Nothing,
        Event::Key(key) => {
            if key.kind == KeyEventKind::Release {
                Action::Nothing
            } else if is_control_chord(key, 'c') {
                Action::Interrupt
            } else if is_control_chord(key, 'l') {
                Action::ClearScreen
            } else {
                match key.code {
                    KeyCode::Enter => Action::Submit,
                    KeyCode::Left => Action::MoveLeft,
                    KeyCode::Right => Action::MoveRight,
                    KeyCode::Backspace => Action::Backspace,
                    KeyCode::Delete => Action::Delete,
                    KeyCode::Char(c) => if is_control(c) {
                        Action::Nothing
                    } else {
                        Action::Insert(c)
                    },
                    KeyCode::Other => Action::Nothing,
                }
            }
        },
    }
}

/// Finds the action an event asks for.
pub fn decode(event: Event) -> (action: Action)
    ensures
        action == action_of(event),
{
    match event {
        Event::Other => Action::Nothing,
        Event::Key(key) => {
            let chord = key.modifiers.bits == CONTROL && key.kind == KeyEventKind::Press;
            match key.kind {
                KeyEventKind::Release => Action::Nothing,
                _ => match key.code {
                    KeyCode::Enter => Action::Submit,
                    KeyCode::Left => Action::MoveLeft,
                    KeyCode::Right => Action::MoveRight,
                    KeyCode::Backspace => Action::Backspace,
                    KeyCode::Delete => Action::Delete,
                    KeyCode::Char(c) => {
                        if chord && c == 'c' {
                            Action::Interrupt
                        } else if chord && c == 'l' {
                            Action::ClearScreen
                        } else if char_is_control(c) {
                            Action::Nothing
                        } else {
                            Action::Insert(c)
                        }
                    },
                    KeyCode::Other => Action::Nothing,
                },
            }
        },
    }
}

/// A request for a fresh prompt.
#[derive(Debug, PartialEq, Eq)]
pub struct PromptRequest {
    /// Whether the cursor is to go down one line first, scrolling where it
    /// stands on the last row.
    pub newline: bool,
    /// What to write at the end of the line that is left, if anything.
    pub write_to_eol: Option<String>,
}

/// The mathematical value of a [`PromptRequest`].
pub struct PromptView {
    pub newline: bool,
    pub write_to_eol: Option<Seq<char>>,
}

impl View for PromptRequest {
    type V = PromptView;

    open spec fn view(&self) -> PromptView {
        PromptView {
            newline: self.newline,
            write_to_eol: opt_text(self.write_to_eol),
        }
    }
}

/// What the driver does for one event, in this order: perform `draw`; run
/// the command, if there is one; start a new input cycle, if one is asked
/// for, with the prompt drawn as the request says.
#[derive(PartialEq, Eq)]
pub struct Reaction {
    pub draw: Vec<DrawOp>,
    pub run: Option<Command>,
    pub prompt: Option<PromptRequest>,
}

/// The mathematical value of a [`Reaction`].
pub struct ReactionView {
    pub draw: Seq<Draw>,
    pub run: Option<CommandView>,
    pub prompt: Option<PromptView>,
}

impl View for Reaction {
    type V = ReactionView;

    open spec fn view(&self) -> ReactionView {
        ReactionView {
            draw: draws(self.draw@),
            run: match self.run {
                Some(command) => Some(command@),
                None => None,
            },
            prompt: match self.prompt {
                Some(request) => Some(request@),
                None => None,
            },
        }
    }
}

/// The mark written behind a line that is given up.
pub open spec fn interrupt_mark() -> Seq<char> {
    seq!['^', 'C']
}

/// The line after `action`.
///
/// Submitting, interrupting and clearing the screen empty it. The editing
/// actions are those of [`LineView`]. A character is inserted only where the
/// line accepts it.
pub open spec fn line_after(line: LineView, action: Action) -> LineView {
    match action {
        Action::Nothing => line,
        Action::Submit | Action::Interrupt | Action::ClearScreen => LineView::empty(),
        Action::MoveLeft => line.move_left(),
        Action::MoveRight => line.move_right(),
        Action::Backspace => line.delete_before_cursor(),
        Action::Delete => line.delete_at_cursor(),
        Action::Insert(c) => if line.accepts(c) {
            line.insert_char(c)
        } else {
            line
        },
    }
}

/// The reaction that draws `draw` and asks for nothing else.
pub open spec fn only_draw(draw: Seq<Draw>) -> ReactionView {
    ReactionView { draw, run: None, prompt: None }
}

/// The reaction to `action` on `line`.
///
/// - Submit, where the line holds a word: the cursor goes to the next line,
///   the line is run as a command, and a prompt follows without a further
///   line feed. Where it holds none, nothing is run and the prompt comes on a
///   new line.
/// - Interrupt: the prompt comes on a new line, behind the interrupt mark.
/// - Clear screen: the cursor goes home, the screen is blanked, and a prompt
///   follows without a line feed.
/// - An editing action that changed the line or moved the cursor draws what
///   [`crate::render`] says for it. One that changed nothing draws nothing.
pub open spec fn reaction_to(line: LineView, action: Action) -> ReactionView {
    match action {
        Action::Nothing => only_draw(Seq::empty()),
        Action::Submit => {
            let found = words(line.text);
            if found.len() > 0 {
                ReactionView {
                    draw: seq![Draw::MoveToNextLine(1), Draw::CarriageReturn],
                    run: Some(CommandView { keyword: found[0], args: found.drop_first() }),
                    prompt: Some(PromptView { newline: false, write_to_eol: None }),
                }
            } else {
                ReactionView {
                    draw: Seq::empty(),
                    run: None,
                    prompt: Some(PromptView { newline: true, write_to_eol: None }),
                }
            }
        },
        Action::Interrupt => ReactionView {
            draw: Seq::empty(),
            run: None,
            prompt: Some(PromptView { newline: true, write_to_eol: Some(interrupt_mark()) }),
        },
        Action::ClearScreen => ReactionView {
            draw: seq![Draw::MoveTo(0, 0), Draw::ClearAll, Draw::EnableLineWrap],
            run: None,
            prompt: Some(PromptView { newline: false, write_to_eol: None }),
        },
        Action::MoveLeft => if line.cursor_from_end < line.text.len() {
            only_draw(moved_draws(true))
        } else {
            only_draw(Seq::empty())
        },
        Action::MoveRight => if line.cursor_from_end > 0 {
            only_draw(moved_draws(false))
        } else {
            only_draw(Seq::empty())
        },
        Action::Backspace => if line.can_delete_before() {
            only_draw(backspaced_draws(line.right()))
        } else {
            only_draw(Seq::empty())
        },
        Action::Delete => if line.can_delete_at() {
            only_draw(deleted_draws(line.right().drop_first()))
        } else {
            only_draw(Seq::empty())
        },
        Action::Insert(c) => if line.accepts(c) {
            only_draw(inserted_draws(c, line.right()))
        } else {
            only_draw(Seq::empty())
        },
    }
}

/// Whatever is asked for, a well-formed line stays well formed.
pub proof fn lemma_actions_keep_wf(line: LineView, action: Action)
    requires
        line.wf(),
    ensures
        line_after(line, action).wf(),
{
    if let Action::Insert(c) = action {
        lemma_edits_keep_wf(line, c);
    }
}

/// What is drawn reaches the terminal before the next event is awaited.
///
/// A reaction that asks for no prompt draws nothing, or ends its drawing with
/// a flush. One that asks for a prompt leaves the flush to the drawing of the
/// prompt, which ends with one.
pub proof fn lemma_drawing_is_flushed(line: LineView, action: Action)
    ensures
        ({
            let reaction = reaction_to(line, action);
            reaction.prompt is None && reaction.draw.len() > 0 ==> reaction.draw.last()
                == Draw::Flush
        }),
        forall|prompt: Seq<char>, buff: Seq<char>|
            (#[trigger] prompt_draws(prompt, buff)).last() == Draw::Flush,
{
}

/// A command is run only for a submitted line that holds a word, and then
/// it is that line's first word with the words behind it. Whenever a prompt
/// is asked for, the line is empty afterwards.
pub proof fn lemma_run_and_prompt(line: LineView, action: Action)
    ensures
        ({
            let reaction = reaction_to(line, action);
            &&& reaction.run is Some <==> action == Action::Submit && words(line.text).len() > 0
            &&& reaction.run matches Some(command) ==> command.keyword == words(line.text)[0]
                && command.args == words(line.text).drop_first()
            &&& reaction.prompt is Some ==> line_after(line, action) == LineView::empty()
            &&& reaction.prompt is Some <==> action == Action::Submit || action
                == Action::Interrupt || action == Action::ClearScreen
        }),
{
}

fn draw_only(draw: Vec<DrawOp>) -> (reaction: Reaction)
    ensures
        reaction@ == only_draw(draws(draw@)),
{
    Reaction { draw, run: None, prompt: None }
}

fn nothing() -> (reaction: Reaction)
    ensures
        reaction@ == only_draw(Seq::empty()),
{
    let draw: Vec<DrawOp> = Vec::new();
    assert(draws(draw@) =~= Seq::<Draw>::empty());
    draw_only(draw)
}

/// Reacts to a submitted line: see [`reaction_to`].
fn submit(buffer: &mut LineBuffer) -> (reaction: Reaction)
    requires
        old(buffer).wf(),
    ensures
        final(buffer).wf(),
        final(buffer)@ == LineView::empty(),
        reaction@ == reaction_to(old(buffer)@, Action::Submit),
{
    let line = buffer.text();
    let found = split_words(line.as_str());
    buffer.reset();
    let mut draw: Vec<DrawOp> = Vec::new();
    if found.len() > 0 {
        assert(texts(found@)[0] == found@[0]@);
        let command = Command::from_words(found);
        draw.push(DrawOp::MoveToNextLine(1));
        draw.push(DrawOp::CarriageReturn);
        assert(draws(draw@) =~= seq![Draw::MoveToNextLine(1), Draw::CarriageReturn]);
        Reaction {
            draw,
            run: Some(command),
            prompt: Some(PromptRequest { newline: false, write_to_eol: None }),
        }
    } else {
        assert(draws(draw@) =~= Seq::<Draw>::empty());
        Reaction {
            draw,
            run: None,
            prompt: Some(PromptRequest { newline: true, write_to_eol: None }),
        }
    }
}

/// Applies `action` to the line and says what the driver is to do for it.
pub fn perform(buffer: &mut LineBuffer, action: Action) -> (reaction: Reaction)
    requires
        old(buffer).wf(),
    ensures
        final(buffer).wf(),
        final(buffer)@ == line_after(old(buffer)@, action),
        reaction@ == reaction_to(old(buffer)@, action),
{
    match action {
        Action::Nothing => nothing(),
        Action::Submit => submit(buffer),
        Action::Interrupt => {
            buffer.reset();
            proof {
                reveal_strlit("^C");
                assert("^C"@ =~= interrupt_mark());
            }
            let draw: Vec<DrawOp> = Vec::new();
            assert(draws(draw@) =~= Seq::<Draw>::empty());
            Reaction {
                draw,
                run: None,
                prompt: Some(
                    PromptRequest { newline: true, write_to_eol: Some("^C".to_string()) },
                ),
            }
        },
        Action::ClearScreen => {
            buffer.reset();
            let mut draw: Vec<DrawOp> = Vec::new();
            draw.push(DrawOp::MoveTo(0, 0));
            draw.push(DrawOp::ClearAll);
            draw.push(DrawOp::EnableLineWrap);
            assert(draws(draw@) =~= seq![Draw::MoveTo(0, 0), Draw::ClearAll, Draw::EnableLineWrap]);
            Reaction {
                draw,
                run: None,
                prompt: Some(PromptRequest { newline: false, write_to_eol: None }),
            }
        },
        Action::MoveLeft => {
            if buffer.move_left() {
                draw_only(draw_moved(true))
            } else {
                nothing()
            }
        },
        Action::MoveRight => {
            if buffer.move_right() {
                draw_only(draw_moved(false))
            } else {
                nothing()
            }
        },
        Action::Backspace => {
            if buffer.delete_before_cursor() {
                proof {
                    let before = old(buffer)@;
                    assert(buffer@.right() =~= before.right());
                }
                let tail = buffer.tail();
                draw_only(draw_backspaced(tail.as_str()))
            } else {
                nothing()
            }
        },
        Action::Delete => {
            if buffer.delete_at_cursor() {
                proof {
                    let before = old(buffer)@;
                    assert(buffer@.right() =~= before.right().drop_first());
                }
                let tail = buffer.tail();
                draw_only(draw_deleted(tail.as_str()))
            } else {
                nothing()
            }
        },
        Action::Insert(c) => {
            if buffer.insert_char(c) {
                proof {
                    let before = old(buffer)@;
                    assert(buffer@.right() =~= before.right());
                }
                let tail = buffer.tail();
                draw_only(draw_inserted(c, tail.as_str()))
            } else {
                nothing()
            }
        },
    }
}

/// Handles one event from the terminal: finds the action it asks for, applies
/// it to the line, and says what the driver is to do.
pub fn handle_event(buffer: &mut LineBuffer, event: Event) -> (reaction: Reaction)
    requires
        old(buffer).wf(),
    ensures
        final(buffer).wf(),
        final(buffer)@ == line_after(old(buffer)@, action_of(event)),
        reaction@ == reaction_to(old(buffer)@, action_of(event)),
{
    perform(buffer, decode(event))
}

} // verus!
