//! `echo`.

use vstd::prelude::*;
use vstd::string::StringExecFns;
use crate::builtin::args::{
    argv_for, is_sound, parse_args, parsed_args, parsed_view, ArgAction, Positional,
    PositionalView, Usage, UsageView, AUTHOR,
};
use crate::builtin::outcome::{says, Outcome, OutcomeView};
use crate::text::texts;

verus! {

/// How `echo` is called: with one sentence, by default empty. The value is
/// read under the id `path`.
pub open spec fn echo_usage() -> UsageView {
    UsageView {
        name: "echo"@,
        about: "Lush built-in. Write sentence to the standard output."@,
        author: AUTHOR@,
        positional: Some(
            PositionalView {
                id: "sentence"@,
                index: 1,
                action: ArgAction::Store,
                default_value: ""@,
                value_name: "SENTENCE"@,
                help: "what to echo"@,
            },
        ),
        lookup: Some("path"@),
    }
}

/// How `echo` is called.
fn usage_of_echo() -> (usage: Usage)
    ensures
        usage@ == echo_usage(),
        is_sound(usage@),
{
    proof {
        reveal_strlit("sentence");
        reveal_strlit("help");
        assert("sentence"@.len() != "help"@.len());
    }
    Usage {
        name: "echo",
        about: "Lush built-in. Write sentence to the standard output.",
        author: AUTHOR,
        positional: Some(
            Positional {
                id: "sentence",
                index: 1,
                action: ArgAction::Store,
                default_value: "",
                value_name: "SENTENCE",
                help: "what to echo",
            },
        ),
        lookup: Some("path"),
    }
}

/// What `clap` makes of the arguments `raw_args` of `echo`, and what it then
/// holds under the id `path`.
pub open spec fn echo_parse(raw_args: Seq<Seq<char>>) -> Result<Option<Seq<char>>, Seq<char>> {
    parsed_args(echo_usage(), seq!["echo"@] + raw_args)
}

/// What `echo` answers, given what its arguments parsed to.
///
/// A refused line is answered with the refusal, and a line in which nothing
/// was found with a notice, both with exit code 1. A value that was found is
/// written, with exit code 0.
pub open spec fn echo_answer(parsed: Result<Option<Seq<char>>, Seq<char>>) -> OutcomeView {
    match parsed {
        Err(refusal) => says(refusal, 1),
        Ok(None) => says("Could not get path argument"@, 1),
        Ok(Some(sentence)) => says(sentence, 0),
    }
}

/// Answers for `echo`: see [`echo_answer`].
pub fn echo_outcome(parsed: Result<Option<String>, String>) -> (outcome: Outcome)
    ensures
        outcome@ == echo_answer(parsed_view(parsed)),
{
    match parsed {
        Err(refusal) => Outcome::say(refusal, 1),
        Ok(None) => Outcome::say(String::from_str("Could not get path argument"), 1),
        Ok(Some(sentence)) => Outcome::say(sentence, 0),
    }
}

/// `echo`: parses `raw_args`, which may hold one sentence, and answers with
/// what the parsed line holds under the id `path`.
pub fn builtin_echo(raw_args: Vec<String>) -> (outcome: Outcome)
    ensures
        outcome@ == echo_answer(echo_parse(texts(raw_args@))),
{
    let argv = argv_for("echo", raw_args);
    let parsed = parse_args(&usage_of_echo(), argv);
    echo_outcome(parsed)
}

} // verus!
