//! The editing core of an interactive shell prompt.
//!
//! The library holds the line being typed, decides what each key does to it,
//! and says which terminal primitives bring the screen back in step. It never
//! touches a terminal itself: a driver reads the keys, hands them in, and
//! performs the primitives that come back.
//!
//! - [`line_buffer`]: the line and its cursor, which is counted from the end.
//! - [`editor`]: from an event to the action it asks for, and from the action
//!   to the new line and to what the driver has to do.
//! - [`render`]: what is drawn for an edit and for a fresh prompt.
//! - [`terminal`]: the primitives that are drawn with.
//! - [`screen`]: a model of the terminal, and the proofs that the drawing
//!   keeps the screen in step with the line.
//! - [`tokenize`] and [`command`]: a submitted line as keyword and arguments.
//! - [`builtin`]: the commands that the shell carries out itself.
//! - [`prompt`]: the text of the prompt.
//! - [`text`]: strings as sequences of characters.

pub mod builtin;
pub mod command;
pub mod editor;
pub mod line_buffer;
pub mod prompt;
pub mod render;
pub mod screen;
pub mod terminal;
pub mod text;
pub mod tokenize;
