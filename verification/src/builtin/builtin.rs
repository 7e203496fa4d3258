//! Finding the builtin that a command names, and having it answer.

use vstd::prelude::*;
use vstd::string::StringExecFns;
use crate::builtin::args::parsed_args;
use crate::builtin::dir::{
    builtin_cd, builtin_pwd, cd_parse, cd_plan, pwd_answer, pwd_usage, CdPlan, CdPlanView,
};
use crate::builtin::echo::{builtin_echo, echo_answer, echo_parse};
use crate::builtin::outcome::{says, Outcome, OutcomeView};
use crate::builtin::path::is_absolute;
use crate::builtin::who::builtin_whoami;
use crate::command::Command;
use crate::terminal::{draws, Draw, DrawOp};
use crate::text::{text_result, texts};

verus! {

/// The builtins that a command can name.
#[derive(Clone, Copy, Debug, PartialEq, Eq, Structural)]
pub enum BuiltIn {
    Cd,
    Echo,
    Exit,
    History,
    Pwd,
    Whoami,
}

/// The builtin of the name `entry`, if there is one.
pub open spec fn builtin_named(entry: Seq<char>) -> Option<BuiltIn> {
    if entry == "cd"@ {
        Some(BuiltIn::Cd)
    } else if entry == "echo"@ {
        Some(BuiltIn::Echo)
    } else if entry == "exit"@ {
        Some(BuiltIn::Exit)
    } else if entry == "history"@ {
        Some(BuiltIn::History)
    } else if entry == "pwd"@ {
        Some(BuiltIn::Pwd)
    } else if entry == "whoami"@ {
        Some(BuiltIn::Whoami)
    } else {
        None
    }
}

/// Each builtin is found under its own name.
pub proof fn lemma_builtin_names()
    ensures
        builtin_named("cd"@) == Some(BuiltIn::Cd),
        builtin_named("echo"@) == Some(BuiltIn::Echo),
        builtin_named("exit"@) == Some(BuiltIn::Exit),
        builtin_named("history"@) == Some(BuiltIn::History),
        builtin_named("pwd"@) == Some(BuiltIn::Pwd),
        builtin_named("whoami"@) == Some(BuiltIn::Whoami),
{
    reveal_strlit("cd");
    reveal_strlit("echo");
    reveal_strlit("exit");
    reveal_strlit("history");
    reveal_strlit("pwd");
    reveal_strlit("whoami");
    assert("whoami"@.len() == 6);
    assert("cd"@.len() == 2);
    assert("echo"@.len() == 4);
    assert("exit"@.len() == 4);
    assert("history"@.len() == 7);
    assert("pwd"@.len() == 3);
    assert("echo"@[1] == 'c');
    assert("exit"@[1] == 'x');
}

impl BuiltIn {
    /// Finds the builtin of the name `entry`.
    pub fn from_str(entry: &str) -> (found: Result<BuiltIn, ()>)
        ensures
            match found {
                Ok(builtin) => builtin_named(entry@) == Some(builtin),
                Err(_) => builtin_named(entry@) is None,
            },
    {
        if entry.eq("cd") {
            Ok(BuiltIn::Cd)
        } else if entry.eq("echo") {
            Ok(BuiltIn::Echo)
        } else if entry.eq("exit") {
            Ok(BuiltIn::Exit)
        } else if entry.eq("history") {
            Ok(BuiltIn::History)
        } else if entry.eq("pwd") {
            Ok(BuiltIn::Pwd)
        } else if entry.eq("whoami") {
            Ok(BuiltIn::Whoami)
        } else {
            Err(())
        }
    }
}

impl std::str::FromStr for BuiltIn {
    type Err = ();

    /// Finds the builtin of the name `entry`, so that a name can be parsed
    /// with `str::parse`.
    fn from_str(entry: &str) -> (found: Result<BuiltIn, ()>)
        ensures
            match found {
                Ok(builtin) => builtin_named(entry@) == Some(builtin),
                Err(_) => builtin_named(entry@) is None,
            },
    {
        BuiltIn::from_str(entry)
    }
}

/// What the shell has to do for a command.
#[derive(Debug, PartialEq, Eq)]
pub enum Dispatch {
    /// Write the outcome's lines; its code is the command's exit code.
    Done(Outcome),
    /// Make this directory the working directory.
    ChangeDir(String),
    /// Draw this, and leave with exit code 0.
    Exit(Vec<DrawOp>),
}

/// The mathematical value of a [`Dispatch`].
pub enum DispatchView {
    Done(OutcomeView),
    ChangeDir(Seq<char>),
    Exit(Seq<Draw>),
}

impl View for Dispatch {
    type V = DispatchView;

    open spec fn view(&self) -> DispatchView {
        match *self {
            Dispatch::Done(outcome) => DispatchView::Done(outcome@),
            Dispatch::ChangeDir(path) => DispatchView::ChangeDir(path@),
            Dispatch::Exit(ops) => DispatchView::Exit(draws(ops@)),
        }
    }
}

/// What is drawn when the shell is left: a fresh line, and a farewell on it.
pub open spec fn farewell_draws() -> Seq<Draw> {
    seq![
        Draw::ScrollUp(1),
        Draw::MoveToNextLine(1),
        Draw::CarriageReturn,
        Draw::Print("Goodbye :)"@),
        Draw::Flush,
    ]
}

/// What `cd` has the shell do.
pub open spec fn cd_dispatch(plan: CdPlanView) -> DispatchView {
    match plan {
        CdPlanView::Stay(outcome) => DispatchView::Done(outcome),
        CdPlanView::Enter(path) => DispatchView::ChangeDir(path),
    }
}

/// What a command that names no builtin is answered with.
pub open spec fn not_found(keyword: Seq<char>) -> OutcomeView {
    says("Command not found: "@ + keyword, 1)
}

/// Has the builtin that `command` names answer it.
///
/// `current_dir` is the working directory as the system gave it, which is
/// absolute, or the message of its failure. `cd`, `echo`, `pwd` and `whoami`
/// answer as [`builtin_cd`], [`builtin_echo`], [`builtin_pwd`] and
/// [`builtin_whoami`] say; `history` writes its name; `exit` takes leave. A
/// keyword that names no builtin is reported as not found, with exit code 1.
pub fn process_command(command: Command, current_dir: Result<String, String>) -> (dispatch:
    Dispatch)
    requires
        current_dir matches Ok(cwd) ==> is_absolute(cwd@),
    ensures
        match builtin_named(command@.keyword) {
            Some(BuiltIn::Cd) => exists|home: Option<Seq<char>>, there: bool, dir: bool|
                dispatch@ == cd_dispatch(
                    #[trigger] cd_plan(
                        cd_parse(command@.args),
                        text_result(current_dir),
                        home,
                        there,
                        dir,
                    ),
                ),
            Some(BuiltIn::Echo) => dispatch@ == DispatchView::Done(
                echo_answer(echo_parse(command@.args)),
            ),
            Some(BuiltIn::Exit) => dispatch@ == DispatchView::Exit(farewell_draws()),
            Some(BuiltIn::History) => dispatch@ == DispatchView::Done(says("History"@, 0)),
            Some(BuiltIn::Pwd) => dispatch@ == DispatchView::Done(
                pwd_answer(
                    parsed_args(pwd_usage(), seq!["pwd"@] + command@.args),
                    text_result(current_dir),
                ),
            ),
            Some(BuiltIn::Whoami) => exists|user: Seq<char>|
                dispatch@ == DispatchView::Done(#[trigger] says(user, 0)),
            None => dispatch@ == DispatchView::Done(not_found(command@.keyword)),
        },
{
    let Command { keyword, args } = command;
    assert(texts(args@) =~= command@.args);
    match BuiltIn::from_str(keyword.as_str()) {
        Ok(BuiltIn::Cd) => {
            let plan = builtin_cd(args, current_dir);
            match plan {
                CdPlan::Stay(outcome) => Dispatch::Done(outcome),
                CdPlan::Enter(path) => Dispatch::ChangeDir(path),
            }
        },
        Ok(BuiltIn::Echo) => Dispatch::Done(builtin_echo(args)),
        Ok(BuiltIn::Exit) => {
            let mut ops: Vec<DrawOp> = Vec::new();
            ops.push(DrawOp::ScrollUp(1));
            ops.push(DrawOp::MoveToNextLine(1));
            ops.push(DrawOp::CarriageReturn);
            ops.push(DrawOp::Print(String::from_str("Goodbye :)")));
            ops.push(DrawOp::Flush);
            assert(draws(ops@) =~= farewell_draws());
            Dispatch::Exit(ops)
        },
        Ok(BuiltIn::History) => Dispatch::Done(Outcome::say(String::from_str("History"), 0)),
        Ok(BuiltIn::Pwd) => Dispatch::Done(builtin_pwd(args, current_dir)),
        Ok(BuiltIn::Whoami) => {
            let outcome = builtin_whoami(args);
            let ghost user = choose|user: Seq<char>| outcome@ == says(user, 0);
            assert(outcome@ == says(user, 0));
            Dispatch::Done(outcome)
        },
        Err(_) => Dispatch::Done(
            Outcome::say(String::from_str("Command not found: ").concat(keyword.as_str()), 1),
        ),
    }
}

} // verus!
