//! What a builtin hands back in place of writing to the terminal itself.

use vstd::prelude::*;
use crate::text::texts;

verus! {

/// What a builtin has to say and how it ended: the lines it writes to the
/// standard output, in order, and its exit code.
#[derive(Debug, PartialEq, Eq)]
pub struct Outcome {
    pub lines: Vec<String>,
    pub code: i32,
}

/// The mathematical value of an [`Outcome`].
pub struct OutcomeView {
    pub lines: Seq<Seq<char>>,
    pub code: int,
}

impl View for Outcome {
    type V = OutcomeView;

    open spec fn view(&self) -> OutcomeView {
        OutcomeView {
            lines: texts(self.lines@),
            code: self.code as int,
        }
    }
}

/// The outcome that writes the one line `line` and ends with `code`.
pub open spec fn says(line: Seq<char>, code: int) -> OutcomeView {
    OutcomeView { lines: seq![line], code }
}

impl Outcome {
    /// The outcome that writes the one line `line` and ends with `code`.
    pub fn say(line: String, code: i32) -> (outcome: Outcome)
        ensures
            outcome@ == says(line@, code as int),
    {
        let mut lines: Vec<String> = Vec::new();
        lines.push(line);
        let outcome = Outcome { lines, code };
        assert(outcome@.lines =~= seq![line@]);
        outcome
    }
}

} // verus!
