//! The commands the shell carries out itself.

pub mod args;
pub mod builtin;
pub mod dir;
pub mod echo;
pub mod outcome;
pub mod path;
pub mod who;
