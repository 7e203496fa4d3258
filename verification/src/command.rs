//! A command line after it has been split: the keyword and its arguments.

use vstd::prelude::*;
use vstd::string::StringExecFns;
use crate::text::{debug_list, debug_texts, texts};

verus! {

/// The mathematical value of a [`Command`].
pub struct CommandView {
    /// The first word of the line.
    pub keyword: Seq<char>,
    /// The words after it, in order.
    pub args: Seq<Seq<char>>,
}

/// A keyword and the arguments given to it.
#[derive(PartialEq, Eq)]
pub struct Command {
    pub keyword: String,
    pub args: Vec<String>,
}

impl View for Command {
    type V = CommandView;

    open spec fn view(&self) -> CommandView {
        CommandView { keyword: self.keyword@, args: texts(self.args@) }
    }
}

impl CommandView {
    /// The command written out for debugging: the keyword as it is, the
    /// arguments as a list.
    pub open spec fn debug_string(self) -> Seq<char> {
        "Command { keyword: "@ + self.keyword + ", args: "@ + debug_texts(self.args) + " }"@
    }
}

impl Command {
    /// Writes the command out for debugging.
    pub fn to_debug_string(&self) -> (shown: String)
        ensures
            shown@ == self@.debug_string(),
    {
        String::from_str("Command { keyword: ").concat(self.keyword.as_str()).concat(
            ", args: ",
        ).concat(debug_list(&self.args).as_str()).concat(" }")
    }

    /// The command whose keyword is the first of `words` and whose arguments
    /// are the others.
    pub fn from_words(words: Vec<String>) -> (command: Command)
        requires
            words.len() > 0,
        ensures
            command@.keyword == words@[0]@,
            command@.args == texts(words@).drop_first(),
    {
        let mut args = words;
        let keyword = args.remove(0);
        assert(texts(args@) =~= texts(words@).drop_first());
        Command { keyword, args }
    }
}

} // verus!
