//! A model of the terminal, to say what the drawing achieves.
//!
//! Nothing here runs. The model follows one line of text on a screen that
//! may scroll: where the cursor is and what each cell holds. Text is taken to
//! stay on its row, one cell per character; wrapping at the right edge is not
//! modelled.

use vstd::prelude::*;
use crate::editor::{lemma_actions_keep_wf, line_after, reaction_to, Action};
use crate::line_buffer::LineView;
use crate::render::{
    backspaced_draws, deleted_draws, inserted_draws, moved_draws, nextln_draws, prompt_draws,
    segment_draws, wipe_draws,
};
use crate::terminal::Draw;

verus! {

/// A terminal as the drawing sees it.
///
/// Lines are counted from the first line the terminal ever showed, so a line
/// keeps its number when the screen scrolls.
#[verifier::ext_equal]
pub struct Screen {
    /// The number of rows shown.
    pub height: int,
    /// The row of the cursor, from the top of what is shown.
    pub row: int,
    /// The column of the cursor.
    pub col: int,
    /// How many lines have scrolled away at the top.
    pub scrolled: int,
    /// The character in each cell, by line and column.
    pub cells: spec_fn(int, int) -> char,
}

impl Screen {
    /// The line the cursor is on.
    pub open spec fn line(self) -> int {
        self.scrolled + self.row
    }

    /// The character in the cell at `column` of `line`.
    pub open spec fn at(self, line: int, column: int) -> char {
        (self.cells)(line, column)
    }

    /// The screen after one primitive.
    pub open spec fn after(self, op: Draw) -> Screen {
        match op {
            Draw::MoveLeft(n) => Screen {
                col: if self.col >= n {
                    self.col - n
                } else {
                    0
                },
                ..self
            },
            Draw::MoveRight(n) => Screen { col: self.col + n, ..self },
            Draw::MoveTo(column, row) => Screen { col: column as int, row: row as int, ..self },
            Draw::MoveToNextLine(n) => Screen {
                row: if self.row + n < self.height {
                    self.row + n
                } else if self.row < self.height {
                    self.height - 1
                } else {
                    self.row
                },
                col: 0,
                ..self
            },
            Draw::CarriageReturn => Screen { col: 0, ..self },
            Draw::Print(text) => Screen {
                col: self.col + text.len(),
                cells: |line: int, column: int|
                    if line == self.line() && self.col <= column < self.col + text.len() {
                        text[column - self.col]
                    } else {
                        (self.cells)(line, column)
                    },
                ..self
            },
            Draw::ScrollUp(n) => Screen {
                scrolled: self.scrolled + n,
                cells: |line: int, column: int|
                    if self.scrolled + self.height <= line < self.scrolled + self.height + n {
                        ' '
                    } else {
                        (self.cells)(line, column)
                    },
                ..self
            },
            Draw::ClearAll => Screen {
                cells: |line: int, column: int|
                    if self.scrolled <= line < self.scrolled + self.height {
                        ' '
                    } else {
                        (self.cells)(line, column)
                    },
                ..self
            },
            Draw::ClearCurrentLine => Screen {
                cells: |line: int, column: int|
                    if line == self.line() {
                        ' '
                    } else {
                        (self.cells)(line, column)
                    },
                ..self
            },
            Draw::EnableLineWrap => self,
            Draw::Flush => self,
        }
    }

    /// The screen after the primitives of `ops`, in order.
    pub open spec fn after_all(self, ops: Seq<Draw>) -> Screen
        decreases ops.len(),
    {
        if ops.len() == 0 {
            self
        } else {
            self.after(ops[0]).after_all(ops.drop_first())
        }
    }

    /// Whether the cursor's line shows `line` from the column `start` on, with
    /// nothing behind it, and the cursor stands where the line's cursor is.
    pub open spec fn shows(self, start: int, line: LineView) -> bool {
        &&& 0 <= start
        &&& self.col == start + line.text.len() - line.cursor_from_end
        &&& forall|column: int|
            start <= column < start + line.text.len() ==> #[trigger] self.at(self.line(), column)
                == line.text[column - start]
        &&& forall|column: int|
            start + line.text.len() <= column ==> #[trigger] self.at(self.line(), column) == ' '
    }

    /// Whether `other` has the same cells as `self` on every line but the
    /// cursor's, and on that line left of the column `start`; and the cursor
    /// of `other` is on the same line.
    pub open spec fn same_but_from(self, other: Screen, start: int) -> bool {
        &&& other.height == self.height
        &&& other.row == self.row
        &&& other.scrolled == self.scrolled
        &&& forall|line: int, column: int|
            line != self.line() || column < start ==> #[trigger] other.at(line, column) == self.at(
                line,
                column,
            )
    }
}

/// Drawing one list after another is drawing the two as one.
pub proof fn lemma_after_all_concat(screen: Screen, first: Seq<Draw>, second: Seq<Draw>)
    ensures
        screen.after_all(first + second) == screen.after_all(first).after_all(second),
    decreases first.len(),
{
    if first.len() == 0 {
        assert(first + second =~= second);
    } else {
        assert((first + second).drop_first() =~= first.drop_first() + second);
        lemma_after_all_concat(screen.after(first[0]), first.drop_first(), second);
    }
}

/// Drawing a list of one primitive is drawing the primitive.
pub proof fn lemma_after_all_one(screen: Screen, op: Draw)
    ensures
        screen.after_all(seq![op]) == screen.after(op),
{
    reveal_with_fuel(Screen::after_all, 2);
    assert(seq![op].drop_first() =~= Seq::<Draw>::empty());
}

/// Writing a segment, which is skipped where it is empty, leaves the screen as
/// writing the text does.
pub proof fn lemma_after_segment(screen: Screen, segment: Seq<char>)
    ensures
        screen.after_all(segment_draws(segment)) == screen.after(Draw::Print(segment)),
{
    if segment.len() > 0 {
        lemma_after_all_one(screen, Draw::Print(segment));
    } else {
        assert(screen.after(Draw::Print(segment)) =~= screen);
    }
}

/// The wipe writes one blank and goes back over it and `back` more cells.
pub proof fn lemma_after_wipe(screen: Screen, back: nat)
    ensures
        screen.after_all(wipe_draws(back)) == screen.after(Draw::Print(seq![' '])).after(
            Draw::MoveLeft(back + 1),
        ),
{
    let ops = wipe_draws(back);
    reveal_with_fuel(Screen::after_all, 4);
    assert(ops.drop_first() =~= seq![Draw::MoveLeft(back + 1), Draw::Flush]);
    assert(ops.drop_first().drop_first() =~= seq![Draw::Flush]);
    assert(ops.drop_first().drop_first().drop_first() =~= Seq::<Draw>::empty());
}

/// After a move of the cursor in the line, the screen shows the line with
/// its cursor where it now is.
pub proof fn lemma_screen_after_move(screen: Screen, start: int, line: LineView, left: bool)
    requires
        line.wf(),
        screen.shows(start, line),
        left ==> line.cursor_from_end < line.text.len(),
        !left ==> line.cursor_from_end > 0,
    ensures
        ({
            let moved = if left {
                line.move_left()
            } else {
                line.move_right()
            };
            let drawn = screen.after_all(moved_draws(left));
            drawn.shows(start, moved) && screen.same_but_from(drawn, start)
        }),
{
    let ops = moved_draws(left);
    let drawn = screen.after_all(ops);
    reveal_with_fuel(Screen::after_all, 3);
    assert(ops.drop_first() =~= seq![Draw::Flush]);
    assert(ops.drop_first().drop_first() =~= Seq::<Draw>::empty());
    assert forall|column: int| start <= column implies #[trigger] drawn.at(drawn.line(), column)
        == screen.at(screen.line(), column) by {}
}

/// After an insertion, the screen shows the line with the new character in
/// it, and the cursor stands behind that character.
pub proof fn lemma_screen_after_insert(screen: Screen, start: int, line: LineView, c: char)
    requires
        line.wf(),
        screen.shows(start, line),
    ensures
        ({
            let drawn = screen.after_all(inserted_draws(c, line.right()));
            drawn.shows(start, line.insert_char(c)) && screen.same_but_from(drawn, start)
        }),
{
    let tail = line.right();
    let after = line.insert_char(c);
    let drawn = screen.after_all(inserted_draws(c, tail));
    if tail.len() == 0 {
        let ops = inserted_draws(c, tail);
        reveal_with_fuel(Screen::after_all, 3);
        assert(ops.drop_first() =~= seq![Draw::Flush]);
        assert(ops.drop_first().drop_first() =~= Seq::<Draw>::empty());
        assert(drawn == screen.after(Draw::Print(seq![c])));
    } else {
        let written = screen.after(Draw::Print(seq![c] + tail));
        lemma_after_all_concat(screen, seq![Draw::Print(seq![c] + tail)], wipe_draws(tail.len()));
        lemma_after_all_one(screen, Draw::Print(seq![c] + tail));
        lemma_after_wipe(written, tail.len());
    }
    assert forall|column: int|
        start <= column < start + after.text.len() implies #[trigger] drawn.at(
        drawn.line(),
        column,
    ) == after.text[column - start] by {
        if column < screen.col {
            assert(screen.at(screen.line(), column) == line.text[column - start]);
        }
    }
    assert forall|column: int| start + after.text.len() <= column implies #[trigger] drawn.at(
        drawn.line(),
        column,
    ) == ' ' by {
        assert(screen.at(screen.line(), column) == ' ');
    }
}

/// After a backspace that removed a character, the screen shows the line
/// without it, and the cursor stands where the character stood.
pub proof fn lemma_screen_after_backspace(screen: Screen, start: int, line: LineView)
    requires
        line.wf(),
        screen.shows(start, line),
        line.can_delete_before(),
    ensures
        ({
            let drawn = screen.after_all(backspaced_draws(line.right()));
            drawn.shows(start, line.delete_before_cursor()) && screen.same_but_from(drawn, start)
        }),
{
    let tail = line.right();
    let after = line.delete_before_cursor();
    let drawn = screen.after_all(backspaced_draws(tail));
    let stepped = screen.after(Draw::MoveLeft(1));
    let written = stepped.after(Draw::Print(tail));
    lemma_after_all_concat(
        screen,
        seq![Draw::MoveLeft(1)] + segment_draws(tail),
        wipe_draws(tail.len()),
    );
    lemma_after_all_concat(screen, seq![Draw::MoveLeft(1)], segment_draws(tail));
    lemma_after_all_one(screen, Draw::MoveLeft(1));
    lemma_after_segment(stepped, tail);
    lemma_after_wipe(written, tail.len());
    assert forall|column: int|
        start <= column < start + after.text.len() implies #[trigger] drawn.at(
        drawn.line(),
        column,
    ) == after.text[column - start] by {
        if column < stepped.col {
            assert(screen.at(screen.line(), column) == line.text[column - start]);
        }
    }
    assert forall|column: int| start + after.text.len() <= column implies #[trigger] drawn.at(
        drawn.line(),
        column,
    ) == ' ' by {
        if column >= start + line.text.len() {
            assert(screen.at(screen.line(), column) == ' ');
        }
    }
}

/// After a forward delete that removed a character, the screen shows the
/// line without it, and the cursor stands where it stood.
pub proof fn lemma_screen_after_delete(screen: Screen, start: int, line: LineView)
    requires
        line.wf(),
        screen.shows(start, line),
        line.can_delete_at(),
    ensures
        ({
            let drawn = screen.after_all(deleted_draws(line.right().drop_first()));
            drawn.shows(start, line.delete_at_cursor()) && screen.same_but_from(drawn, start)
        }),
{
    let tail = line.right().drop_first();
    let after = line.delete_at_cursor();
    let drawn = screen.after_all(deleted_draws(tail));
    let written = screen.after(Draw::Print(tail));
    lemma_after_all_concat(screen, segment_draws(tail), wipe_draws(tail.len()));
    lemma_after_segment(screen, tail);
    lemma_after_wipe(written, tail.len());
    assert forall|column: int|
        start <= column < start + after.text.len() implies #[trigger] drawn.at(
        drawn.line(),
        column,
    ) == after.text[column - start] by {
        if column < screen.col {
            assert(screen.at(screen.line(), column) == line.text[column - start]);
        }
    }
    assert forall|column: int| start + after.text.len() <= column implies #[trigger] drawn.at(
        drawn.line(),
        column,
    ) == ' ' by {
        if column >= start + line.text.len() {
            assert(screen.at(screen.line(), column) == ' ');
        }
    }
}

/// Whether the primitive moves or scrolls by at least one, if it moves or
/// scrolls at all. A terminal may take a count of zero for one.
pub open spec fn has_positive_count(op: Draw) -> bool {
    match op {
        Draw::MoveLeft(n) | Draw::MoveRight(n) | Draw::MoveToNextLine(n) | Draw::ScrollUp(n) => n
            >= 1,
        _ => true,
    }
}

/// Nothing that is drawn for an action, or to leave a line, moves or scrolls
/// by zero.
pub proof fn lemma_counts_are_positive(
    line: LineView,
    action: Action,
    row: u16,
    height: u16,
    newline: bool,
    write_to_eol: Option<Seq<char>>,
)
    ensures
        forall|i: int|
            0 <= i < reaction_to(line, action).draw.len() ==> has_positive_count(
                #[trigger] reaction_to(line, action).draw[i],
            ),
        forall|i: int|
            0 <= i < nextln_draws(row, height, newline, write_to_eol).len() ==> has_positive_count(
                #[trigger] nextln_draws(row, height, newline, write_to_eol)[i],
            ),
{
}

/// Whether `action` edits the line in place: it moves the cursor, removes a
/// character or inserts one.
pub open spec fn is_edit(action: Action) -> bool {
    match action {
        Action::MoveLeft | Action::MoveRight | Action::Backspace | Action::Delete | Action::Insert(
            _,
        ) => true,
        _ => false,
    }
}

/// What is drawn for an editing action keeps the screen in step with the
/// line.
///
/// Where the screen shows the line before the action, with the cursor in its
/// place, it shows the line after it, with the cursor in its place. The
/// drawing touches nothing left of the line, where the prompt stands, nor any
/// other line; nothing is run, and no prompt is asked for.
pub proof fn lemma_editing_keeps_screen_in_step(
    screen: Screen,
    start: int,
    line: LineView,
    action: Action,
)
    requires
        line.wf(),
        screen.shows(start, line),
        is_edit(action),
    ensures
        ({
            let reaction = reaction_to(line, action);
            let drawn = screen.after_all(reaction.draw);
            &&& drawn.shows(start, line_after(line, action))
            &&& screen.same_but_from(drawn, start)
            &&& reaction.run is None
            &&& reaction.prompt is None
        }),
{
    let reaction = reaction_to(line, action);
    let drawn = screen.after_all(reaction.draw);
    if reaction.draw.len() == 0 {
        assert(line_after(line, action) == line);
        assert forall|column: int| start <= column implies #[trigger] drawn.at(
            drawn.line(),
            column,
        ) == screen.at(screen.line(), column) by {}
    } else {
        match action {
            Action::MoveLeft => lemma_screen_after_move(screen, start, line, true),
            Action::MoveRight => lemma_screen_after_move(screen, start, line, false),
            Action::Backspace => lemma_screen_after_backspace(screen, start, line),
            Action::Delete => lemma_screen_after_delete(screen, start, line),
            Action::Insert(c) => lemma_screen_after_insert(screen, start, line, c),
            _ => {},
        }
    }
}

/// The line after the actions of `actions`, one after the other.
pub open spec fn line_after_all(line: LineView, actions: Seq<Action>) -> LineView
    decreases actions.len(),
{
    if actions.len() == 0 {
        line
    } else {
        line_after_all(line_after(line, actions[0]), actions.drop_first())
    }
}

/// All that is drawn for the actions of `actions`, one after the other.
pub open spec fn drawn_for_all(line: LineView, actions: Seq<Action>) -> Seq<Draw>
    decreases actions.len(),
{
    if actions.len() == 0 {
        Seq::empty()
    } else {
        reaction_to(line, actions[0]).draw + drawn_for_all(
            line_after(line, actions[0]),
            actions.drop_first(),
        )
    }
}

/// However long the line is edited, the screen stays in step with it: after
/// any run of editing actions the screen shows the line as it then is, with
/// the cursor in its place, and nothing left of the line or on another line
/// has been touched.
pub proof fn lemma_editing_stays_in_step(
    screen: Screen,
    start: int,
    line: LineView,
    actions: Seq<Action>,
)
    requires
        line.wf(),
        screen.shows(start, line),
        forall|i: int| 0 <= i < actions.len() ==> is_edit(#[trigger] actions[i]),
    ensures
        ({
            let drawn = screen.after_all(drawn_for_all(line, actions));
            &&& line_after_all(line, actions).wf()
            &&& drawn.shows(start, line_after_all(line, actions))
            &&& screen.same_but_from(drawn, start)
        }),
    decreases actions.len(),
{
    if actions.len() > 0 {
        let step = reaction_to(line, actions[0]).draw;
        let next = line_after(line, actions[0]);
        let stepped = screen.after_all(step);
        let drawn = screen.after_all(drawn_for_all(line, actions));
        lemma_editing_keeps_screen_in_step(screen, start, line, actions[0]);
        lemma_actions_keep_wf(line, actions[0]);
        lemma_editing_stays_in_step(stepped, start, next, actions.drop_first());
        lemma_after_all_concat(screen, step, drawn_for_all(next, actions.drop_first()));
        assert forall|line: int, column: int|
            line != screen.line() || column < start implies #[trigger] drawn.at(line, column)
            == screen.at(line, column) by {
            assert(stepped.at(line, column) == screen.at(line, column));
        }
    }
}

/// Whether the text `marker` was written on `screen` at its cursor, and
/// `drawn` differs from `screen` in no other cell of the cursor's line or of
/// a line above it.
pub open spec fn kept_above(screen: Screen, drawn: Screen, marker: Seq<char>) -> bool {
    forall|line: int, column: int|
        line <= screen.line() ==> #[trigger] drawn.at(line, column) == if line == screen.line()
            && screen.col <= column < screen.col + marker.len() {
            marker[column - screen.col]
        } else {
            screen.at(line, column)
        }
}

/// The text that [`nextln_draws`] writes at the end of the line that is
/// left.
pub open spec fn marker_text(write_to_eol: Option<Seq<char>>) -> Seq<char> {
    match write_to_eol {
        Some(text) => text,
        None => Seq::empty(),
    }
}

/// Leaving a line for a new one puts the cursor at the start of the line
/// below, and overwrites nothing.
///
/// `row` and `height` are what the terminal reports, and the cursor is on the
/// screen. Then the cursor ends on the next line, in column 0 and still on
/// the screen. The line that is left and those above it are as they were,
/// but for the text written at the end of the line. On the last row the
/// screen scrolls, and the new line is blank; elsewhere nothing below is
/// touched.
pub proof fn lemma_new_line_is_below(
    screen: Screen,
    row: u16,
    height: u16,
    write_to_eol: Option<Seq<char>>,
)
    requires
        row == screen.row,
        height == screen.height,
        0 <= screen.row < screen.height,
    ensures
        ({
            let drawn = screen.after_all(nextln_draws(row, height, true, write_to_eol));
            &&& drawn.line() == screen.line() + 1
            &&& drawn.col == 0
            &&& drawn.height == screen.height
            &&& 0 <= drawn.row < drawn.height
            &&& kept_above(screen, drawn, marker_text(write_to_eol))
            &&& screen.row == screen.height - 1 ==> forall|column: int|
                #[trigger] drawn.at(drawn.line(), column) == ' '
            &&& screen.row < screen.height - 1 ==> drawn.scrolled == screen.scrolled && forall|
                line: int,
                column: int,
            |
                line > screen.line() ==> #[trigger] drawn.at(line, column) == screen.at(
                    line,
                    column,
                )
        }),
{
    let marker = marker_text(write_to_eol);
    let marked = screen.after(Draw::Print(marker));
    let head = match write_to_eol {
        Some(text) => seq![Draw::Print(text)],
        None => Seq::empty(),
    };
    let scroll = if screen.row == screen.height - 1 {
        seq![Draw::ScrollUp(1)]
    } else {
        Seq::empty()
    };
    let rest = seq![Draw::MoveToNextLine(1)] + seq![Draw::CarriageReturn];
    assert(nextln_draws(row, height, true, write_to_eol) =~= head + (scroll + rest));
    lemma_after_all_concat(screen, head, scroll + rest);
    assert(screen.after_all(head) == marked) by {
        if write_to_eol is Some {
            lemma_after_all_one(screen, Draw::Print(marker));
        } else {
            assert(marked =~= screen);
        }
    }
    lemma_after_all_concat(marked, scroll, rest);
    let scrolled = marked.after_all(scroll);
    if screen.row == screen.height - 1 {
        lemma_after_all_one(marked, Draw::ScrollUp(1));
    }
    lemma_after_all_concat(scrolled, seq![Draw::MoveToNextLine(1)], seq![Draw::CarriageReturn]);
    lemma_after_all_one(scrolled, Draw::MoveToNextLine(1));
    lemma_after_all_one(scrolled.after(Draw::MoveToNextLine(1)), Draw::CarriageReturn);
}

/// Redrawing without a new line puts the cursor at the start of its line and
/// leaves every cell as it is, but for the text written at the end of the
/// line.
pub proof fn lemma_same_line_restarts(
    screen: Screen,
    row: u16,
    height: u16,
    write_to_eol: Option<Seq<char>>,
)
    ensures
        ({
            let drawn = screen.after_all(nextln_draws(row, height, false, write_to_eol));
            &&& drawn.line() == screen.line()
            &&& drawn.row == screen.row
            &&& drawn.scrolled == screen.scrolled
            &&& drawn.height == screen.height
            &&& drawn.col == 0
            &&& kept_above(screen, drawn, marker_text(write_to_eol))
        }),
{
    let marker = marker_text(write_to_eol);
    let marked = screen.after(Draw::Print(marker));
    let head = match write_to_eol {
        Some(text) => seq![Draw::Print(text)],
        None => Seq::empty(),
    };
    assert(nextln_draws(row, height, false, write_to_eol) =~= head + seq![Draw::CarriageReturn]);
    lemma_after_all_concat(screen, head, seq![Draw::CarriageReturn]);
    assert(screen.after_all(head) == marked) by {
        if write_to_eol is Some {
            lemma_after_all_one(screen, Draw::Print(marker));
        } else {
            assert(marked =~= screen);
        }
    }
    lemma_after_all_one(marked, Draw::CarriageReturn);
}

/// The prompt, written at the start of a blank line, stands there with a
/// space behind it, and the screen then shows the line typed so far behind
/// that space, with the cursor at its end.
pub proof fn lemma_prompt_shows_line(screen: Screen, prompt: Seq<char>, buff: Seq<char>)
    requires
        screen.col == 0,
        forall|column: int| #[trigger] screen.at(screen.line(), column) == ' ',
    ensures
        ({
            let drawn = screen.after_all(prompt_draws(prompt, buff));
            &&& drawn.shows(prompt.len() as int + 1, LineView { text: buff, cursor_from_end: 0 })
            &&& forall|column: int|
                0 <= column < prompt.len() ==> #[trigger] drawn.at(drawn.line(), column)
                    == prompt[column]
            &&& drawn.at(drawn.line(), prompt.len() as int) == ' '
            &&& screen.same_but_from(drawn, 0)
        }),
{
    let ops = prompt_draws(prompt, buff);
    let drawn = screen.after_all(ops);
    reveal_with_fuel(Screen::after_all, 3);
    assert(ops.drop_first() =~= seq![Draw::Flush]);
    assert(ops.drop_first().drop_first() =~= Seq::<Draw>::empty());
    assert(drawn == screen.after(Draw::Print(prompt + seq![' '] + buff)));
    assert forall|column: int| prompt.len() + 1 + buff.len() <= column implies #[trigger] drawn.at(
        drawn.line(),
        column,
    ) == ' ' by {
        assert(screen.at(screen.line(), column) == ' ');
    }
}

/// A new input cycle on a new line starts in step.
///
/// `row` and `height` are what the terminal reports, the cursor is on the
/// screen, and nothing stands below its line. Then what is drawn to start
/// the cycle leaves the old line and all above it as they were, but for the
/// text written at the end of the line; the prompt stands on the line below;
/// and the screen shows the empty line behind it.
pub proof fn lemma_new_cycle_is_in_step(
    screen: Screen,
    row: u16,
    height: u16,
    write_to_eol: Option<Seq<char>>,
    prompt: Seq<char>,
)
    requires
        row == screen.row,
        height == screen.height,
        0 <= screen.row < screen.height,
        forall|line: int, column: int|
            line > screen.line() ==> #[trigger] screen.at(line, column) == ' ',
    ensures
        ({
            let drawn = screen.after_all(
                nextln_draws(row, height, true, write_to_eol) + prompt_draws(prompt, Seq::empty()),
            );
            &&& drawn.line() == screen.line() + 1
            &&& 0 <= drawn.row < drawn.height
            &&& kept_above(screen, drawn, marker_text(write_to_eol))
            &&& forall|column: int|
                0 <= column < prompt.len() ==> #[trigger] drawn.at(drawn.line(), column)
                    == prompt[column]
            &&& drawn.shows(prompt.len() as int + 1, LineView::empty())
        }),
{
    let lead = nextln_draws(row, height, true, write_to_eol);
    let moved = screen.after_all(lead);
    lemma_new_line_is_below(screen, row, height, write_to_eol);
    lemma_after_all_concat(screen, lead, prompt_draws(prompt, Seq::empty()));
    assert forall|column: int| #[trigger] moved.at(moved.line(), column) == ' ' by {
        if screen.row < screen.height - 1 {
            assert(screen.at(moved.line(), column) == ' ');
        }
    }
    lemma_prompt_shows_line(moved, prompt, Seq::empty());
    let drawn = moved.after_all(prompt_draws(prompt, Seq::empty()));
    assert forall|line: int, column: int| line <= screen.line() implies #[trigger] drawn.at(
        line,
        column,
    ) == moved.at(line, column) by {}
}

} // verus!
