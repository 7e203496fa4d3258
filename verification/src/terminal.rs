//! The primitives a terminal is driven with.
//!
//! The library draws nothing itself. It hands out lists of [`DrawOp`], and a
//! driver performs them, in order, on the real device.

use vstd::prelude::*;

verus! {

/// One thing to do to the terminal.
///
/// Where a primitive takes a count, the library never asks for zero, which
/// many terminals take for one.
#[derive(Debug, PartialEq, Eq)]
pub enum DrawOp {
    /// Move the cursor this many columns to the left.
    MoveLeft(usize),
    /// Move the cursor this many columns to the right.
    MoveRight(usize),
    /// Put the cursor at this column and row, both counted from zero.
    MoveTo(u16, u16),
    /// Move the cursor to the start of the line this many rows further down.
    MoveToNextLine(u16),
    /// Move the cursor to the start of its line.
    CarriageReturn,
    /// Write this text at the cursor.
    Print(String),
    /// Scroll what is shown up by this many rows.
    ScrollUp(u16),
    /// Blank the whole screen.
    ClearAll,
    /// Blank the line the cursor is on.
    ClearCurrentLine,
    /// Let text that reaches the right edge go on in the next row.
    EnableLineWrap,
    /// Send everything drawn so far to the device.
    Flush,
}

/// The mathematical value of a [`DrawOp`].
pub enum Draw {
    MoveLeft(nat),
    MoveRight(nat),
    MoveTo(nat, nat),
    MoveToNextLine(nat),
    CarriageReturn,
    Print(Seq<char>),
    ScrollUp(nat),
    ClearAll,
    ClearCurrentLine,
    EnableLineWrap,
    Flush,
}

impl View for DrawOp {
    type V = Draw;

    open spec fn view(&self) -> Draw {
        match *self {
            DrawOp::MoveLeft(n) => Draw::MoveLeft(n as nat),
            DrawOp::MoveRight(n) => Draw::MoveRight(n as nat),
            DrawOp::MoveTo(column, row) => Draw::MoveTo(column as nat, row as nat),
            DrawOp::MoveToNextLine(n) => Draw::MoveToNextLine(n as nat),
            DrawOp::CarriageReturn => Draw::CarriageReturn,
            DrawOp::Print(text) => Draw::Print(text@),
            DrawOp::ScrollUp(n) => Draw::ScrollUp(n as nat),
            DrawOp::ClearAll => Draw::ClearAll,
            DrawOp::ClearCurrentLine => Draw::ClearCurrentLine,
            DrawOp::EnableLineWrap => Draw::EnableLineWrap,
            DrawOp::Flush => Draw::Flush,
        }
    }
}

/// The values of a list of primitives, in order.
pub open spec fn draws(ops: Seq<DrawOp>) -> Seq<Draw> {
    Seq::new(ops.len(), |i: int| ops[i]@)
}

} // verus!
