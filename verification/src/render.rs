//! What to draw: the prompt on a fresh line, and the line after an edit.
//!
//! An edit is drawn from the place of the edit on: what stands right of it is
//! written anew, the cell behind the line is wiped, and the cursor goes back
//! to its place. Every character is taken to fill one column; characters that
//! fill two or none are not supported. The line is taken to fit on its row.

use vstd::prelude::*;
use vstd::string::StringExecFns;
use crate::line_buffer::{LineBuffer, LineView};
use crate::terminal::{draws, Draw, DrawOp};
use crate::text::opt_str;

verus! {

/// Whether the cursor stands on the last row of a terminal of `height` rows,
/// or below it: then a new line is to be had only by scrolling.
pub open spec fn at_last_row(row: u16, height: u16) -> bool {
    row >= height - 1
}

/// What [`print_nextln`] draws.
///
/// The text for the end of the old line comes first, if there is any. Where a
/// new line is asked for, the cursor then goes one row down, after a scroll by
/// one row where it stands on the last row. It ends at the start of its line.
pub open spec fn nextln_draws(
    row: u16,
    height: u16,
    newline: bool,
    write_to_eol: Option<Seq<char>>,
) -> Seq<Draw> {
    let marker = match write_to_eol {
        Some(text) => seq![Draw::Print(text)],
        None => Seq::empty(),
    };
    let scroll = if newline && at_last_row(row, height) {
        seq![Draw::ScrollUp(1)]
    } else {
        Seq::empty()
    };
    let advance = if newline {
        seq![Draw::MoveToNextLine(1)]
    } else {
        Seq::empty()
    };
    marker + scroll + advance + seq![Draw::CarriageReturn]
}

/// Leaves the line the cursor is on and puts the cursor where the next prompt
/// belongs. `row` is the cursor's row and `height` the number of rows of the
/// terminal, both as the terminal reports them just before the call.
///
/// On the last row the cursor cannot go down. There the screen is scrolled
/// first, so that the prompt gets a row of its own and does not overwrite the
/// last one.
pub fn print_nextln(
    row: u16,
    height: u16,
    newline: bool,
    write_to_eol: Option<&str>,
) -> (ops: Vec<DrawOp>)
    ensures
        draws(ops@) == nextln_draws(row, height, newline, opt_str(write_to_eol)),
{
    let mut ops: Vec<DrawOp> = Vec::new();
    if let Some(text) = write_to_eol {
        ops.push(DrawOp::Print(String::from_str(text)));
    }
    if newline {
        if height == 0 || row >= height - 1 {
            ops.push(DrawOp::ScrollUp(1));
        }
        ops.push(DrawOp::MoveToNextLine(1));
    }
    ops.push(DrawOp::CarriageReturn);
    assert(draws(ops@) =~= nextln_draws(row, height, newline, opt_str(write_to_eol)));
    ops
}

/// What [`print_prompt`] draws: the prompt, a space and the line, as one
/// text, and a flush.
pub open spec fn prompt_draws(prompt: Seq<char>, buff: Seq<char>) -> Seq<Draw> {
    seq![Draw::Print(prompt + seq![' '] + buff), Draw::Flush]
}

/// Writes the prompt and, after a space, the line typed so far.
pub fn print_prompt(prompt: &str, buff: &str) -> (ops: Vec<DrawOp>)
    ensures
        draws(ops@) == prompt_draws(prompt@, buff@),
{
    proof {
        reveal_strlit(" ");
        assert(" "@ =~= seq![' ']);
    }
    let text = String::from_str(prompt).concat(" ").concat(buff);
    let mut ops: Vec<DrawOp> = Vec::new();
    ops.push(DrawOp::Print(text));
    ops.push(DrawOp::Flush);
    assert(draws(ops@) =~= prompt_draws(prompt@, buff@));
    ops
}

/// Starts a new input cycle: leaves the old line as [`print_nextln`] does,
/// writes `prompt` with nothing after it, and hands out an empty buffer.
pub fn next_term(
    row: u16,
    height: u16,
    newline: bool,
    write_to_eol: Option<&str>,
    prompt: &str,
) -> (started: (Vec<DrawOp>, LineBuffer))
    ensures
        draws(started.0@) == nextln_draws(row, height, newline, opt_str(write_to_eol))
            + prompt_draws(prompt@, Seq::empty()),
        started.1.wf(),
        started.1@ == LineView::empty(),
{
    let mut ops = print_nextln(row, height, newline, write_to_eol);
    let mut tail = print_prompt(prompt, "");
    let ghost head = ops@;
    let ghost rest = tail@;
    proof {
        reveal_strlit("");
        assert(""@ =~= Seq::<char>::empty());
    }
    ops.append(&mut tail);
    assert(draws(ops@) =~= draws(head) + draws(rest));
    (ops, LineBuffer::new())
}

/// What [`reset_term`] draws.
pub open spec fn reset_draws() -> Seq<Draw> {
    seq![Draw::ClearCurrentLine, Draw::CarriageReturn, Draw::Flush]
}

/// Blanks the line the cursor is on and puts the cursor at its start, before
/// the first prompt.
pub fn reset_term() -> (ops: Vec<DrawOp>)
    ensures
        draws(ops@) == reset_draws(),
{
    let mut ops: Vec<DrawOp> = Vec::new();
    ops.push(DrawOp::ClearCurrentLine);
    ops.push(DrawOp::CarriageReturn);
    ops.push(DrawOp::Flush);
    assert(draws(ops@) =~= reset_draws());
    ops
}

/// The blank that wipes the cell after the line, the way back to the cursor
/// over it and over `back` characters, and a flush.
pub open spec fn wipe_draws(back: nat) -> Seq<Draw> {
    seq![Draw::Print(seq![' ']), Draw::MoveLeft(back + 1), Draw::Flush]
}

/// Writing `segment`, unless it is empty.
pub open spec fn segment_draws(segment: Seq<char>) -> Seq<Draw> {
    if segment.len() > 0 {
        seq![Draw::Print(segment)]
    } else {
        Seq::empty()
    }
}

/// What [`draw_inserted`] draws. At the end of the line the new character
/// alone is written. Elsewhere it is written with the tail behind it, then the
/// cell after the line is wiped and the cursor goes back to stand before the
/// tail.
pub open spec fn inserted_draws(c: char, tail: Seq<char>) -> Seq<Draw> {
    if tail.len() == 0 {
        seq![Draw::Print(seq![c]), Draw::Flush]
    } else {
        seq![Draw::Print(seq![c] + tail)] + wipe_draws(tail.len())
    }
}

/// What [`draw_backspaced`] draws: one step to the left, onto the cell of the
/// character that left; the tail over it; then the wipe and the way back.
pub open spec fn backspaced_draws(tail: Seq<char>) -> Seq<Draw> {
    seq![Draw::MoveLeft(1)] + segment_draws(tail) + wipe_draws(tail.len())
}

/// What [`draw_deleted`] draws: the tail over the cell of the character that
/// left, then the wipe and the way back.
pub open spec fn deleted_draws(tail: Seq<char>) -> Seq<Draw> {
    segment_draws(tail) + wipe_draws(tail.len())
}

/// What [`draw_moved`] draws: one step of the cursor, and a flush.
pub open spec fn moved_draws(left: bool) -> Seq<Draw> {
    if left {
        seq![Draw::MoveLeft(1), Draw::Flush]
    } else {
        seq![Draw::MoveRight(1), Draw::Flush]
    }
}

fn push_segment(ops: &mut Vec<DrawOp>, segment: String)
    ensures
        draws(final(ops)@) == draws(old(ops)@) + segment_draws(segment@),
{
    if !segment.as_str().is_empty() {
        ops.push(DrawOp::Print(segment));
    }
    assert(draws(ops@) =~= draws(old(ops)@) + segment_draws(segment@));
}

fn push_wipe(ops: &mut Vec<DrawOp>, back: usize)
    requires
        back < usize::MAX,
    ensures
        draws(final(ops)@) == draws(old(ops)@) + wipe_draws(back as nat),
{
    proof {
        reveal_strlit(" ");
        assert(" "@ =~= seq![' ']);
    }
    ops.push(DrawOp::Print(String::from_str(" ")));
    ops.push(DrawOp::MoveLeft(back + 1));
    ops.push(DrawOp::Flush);
    assert(draws(ops@) =~= draws(old(ops)@) + wipe_draws(back as nat));
}

/// Brings the screen in step after `c` went in left of the cursor. `tail` is
/// what stands right of the cursor.
pub fn draw_inserted(c: char, tail: &str) -> (ops: Vec<DrawOp>)
    requires
        tail@.len() < usize::MAX,
    ensures
        draws(ops@) == inserted_draws(c, tail@),
{
    let mut text = String::new();
    text.push(c);
    let mut ops: Vec<DrawOp> = Vec::new();
    let back = tail.unicode_len();
    if back == 0 {
        assert(text@ =~= seq![c]);
        ops.push(DrawOp::Print(text));
        ops.push(DrawOp::Flush);
        assert(draws(ops@) =~= inserted_draws(c, tail@));
    } else {
        let text = text.concat(tail);
        assert(text@ =~= seq![c] + tail@);
        ops.push(DrawOp::Print(text));
        assert(draws(ops@) =~= seq![Draw::Print(seq![c] + tail@)]);
        push_wipe(&mut ops, back);
    }
    ops
}

/// Brings the screen in step after the character left of the cursor was
/// removed. `tail` is what stands right of the cursor.
pub fn draw_backspaced(tail: &str) -> (ops: Vec<DrawOp>)
    requires
        tail@.len() < usize::MAX,
    ensures
        draws(ops@) == backspaced_draws(tail@),
{
    let mut ops: Vec<DrawOp> = Vec::new();
    ops.push(DrawOp::MoveLeft(1));
    assert(draws(ops@) =~= seq![Draw::MoveLeft(1)]);
    push_segment(&mut ops, String::from_str(tail));
    push_wipe(&mut ops, tail.unicode_len());
    ops
}

/// Brings the screen in step after the character right of the cursor was
/// removed. `tail` is what stands right of the cursor now.
pub fn draw_deleted(tail: &str) -> (ops: Vec<DrawOp>)
    requires
        tail@.len() < usize::MAX,
    ensures
        draws(ops@) == deleted_draws(tail@),
{
    let mut ops: Vec<DrawOp> = Vec::new();
    assert(draws(ops@) =~= Seq::<Draw>::empty());
    push_segment(&mut ops, String::from_str(tail));
    push_wipe(&mut ops, tail.unicode_len());
    ops
}

/// Moves the terminal's cursor one column, to the left or to the right, after
/// the cursor in the line moved so.
pub fn draw_moved(left: bool) -> (ops: Vec<DrawOp>)
    ensures
        draws(ops@) == moved_draws(left),
{
    let mut ops: Vec<DrawOp> = Vec::new();
    if left {
        ops.push(DrawOp::MoveLeft(1));
    } else {
        ops.push(DrawOp::MoveRight(1));
    }
    ops.push(DrawOp::Flush);
    assert(draws(ops@) =~= moved_draws(left));
    ops
}

} // verus!
