//! The working directory: showing it, and changing it.

use vstd::prelude::*;
use vstd::string::StringExecFns;
use crate::builtin::args::{
    argv_for, is_sound, parse_args, parsed_args, parsed_view, ArgAction, Positional,
    PositionalView, Usage, UsageView, AUTHOR,
};
use crate::builtin::outcome::{says, Outcome, OutcomeView};
use crate::builtin::path::{
    home_dir, is_absolute, locate, located, located_view, paths_equal, same_path, PathError,
    PathErrorView,
};
use crate::text::{debug_quote, debug_text, opt_text, text_result, texts};

verus! {

/// How the directory `dir` is shown: as `~` where a short form is asked for
/// and `dir` is the home directory, else as it is.
pub open spec fn shown_dir(dir: Seq<char>, home: Option<Seq<char>>, shorten: bool) -> Seq<char> {
    if shorten && home is Some && same_path(dir, home->0) {
        seq!['~']
    } else {
        dir
    }
}

/// Shows the directory `dir`: see [`shown_dir`].
pub fn shorten_dir(dir: String, home: Option<String>, shorten: bool) -> (shown: String)
    ensures
        shown@ == shown_dir(dir@, opt_text(home), shorten),
{
    let at_home = shorten && match &home {
        Some(home) => paths_equal(dir.as_str(), home.as_str()),
        None => false,
    };
    if at_home {
        proof {
            reveal_strlit("~");
            assert("~"@ =~= seq!['~']);
        }
        String::from_str("~")
    } else {
        dir
    }
}

/// The working directory for display. `current_dir` is the working directory
/// as the system gave it, or the message of its failure, which is handed on.
/// With `shorten_when_possible` the home directory is shown as `~`.
pub fn get_cwd(shorten_when_possible: bool, current_dir: Result<String, String>) -> (shown:
    Result<String, String>)
    ensures
        current_dir is Err ==> text_result(shown) == text_result(current_dir),
        current_dir is Ok ==> exists|home: Option<Seq<char>>|
            text_result(shown) == Ok::<Seq<char>, Seq<char>>(
                shown_dir(current_dir->Ok_0@, home, shorten_when_possible),
            ),
        current_dir is Ok && !shorten_when_possible ==> text_result(shown) == text_result(
            current_dir,
        ),
{
    match current_dir {
        Ok(dir) => {
            let home = if shorten_when_possible {
                home_dir()
            } else {
                None
            };
            let ghost home_view = opt_text(home);
            let shown = shorten_dir(dir, home, shorten_when_possible);
            assert(shown@ == shown_dir(dir@, home_view, shorten_when_possible));
            Ok(shown)
        },
        Err(message) => Err(message),
    }
}

/// How `pwd` is called: without an argument.
pub open spec fn pwd_usage() -> UsageView {
    UsageView {
        name: "pwd"@,
        about: "Lush built-in. Print the name of the current working directory."@,
        author: AUTHOR@,
        positional: None,
        lookup: None,
    }
}

/// How `pwd` is called.
fn usage_of_pwd() -> (usage: Usage)
    ensures
        usage@ == pwd_usage(),
        is_sound(usage@),
{
    Usage {
        name: "pwd",
        about: "Lush built-in. Print the name of the current working directory.",
        author: AUTHOR,
        positional: None,
        lookup: None,
    }
}

/// What `pwd` answers, given how its arguments parsed and the working
/// directory.
///
/// A refused line is answered with the refusal and exit code 1. Else the
/// directory is written, with exit code 0, or that it could not be had, with
/// exit code 1.
pub open spec fn pwd_answer(
    parsed: Result<Option<Seq<char>>, Seq<char>>,
    current_dir: Result<Seq<char>, Seq<char>>,
) -> OutcomeView {
    match parsed {
        Err(refusal) => says(refusal, 1),
        Ok(_) => match current_dir {
            Ok(dir) => says(dir, 0),
            Err(_) => says("Could not get current directory"@, 1),
        },
    }
}

/// Answers for `pwd`: see [`pwd_answer`].
pub fn pwd_outcome(
    parsed: Result<Option<String>, String>,
    current_dir: Result<String, String>,
) -> (outcome: Outcome)
    ensures
        outcome@ == pwd_answer(parsed_view(parsed), text_result(current_dir)),
{
    match parsed {
        Err(refusal) => Outcome::say(refusal, 1),
        Ok(_) => match current_dir {
            Ok(dir) => Outcome::say(dir, 0),
            Err(_) => Outcome::say(String::from_str("Could not get current directory"), 1),
        },
    }
}

/// `pwd`: writes the working directory. `current_dir` is the working
/// directory as the system gave it, or the message of its failure.
pub fn builtin_pwd(raw_args: Vec<String>, current_dir: Result<String, String>) -> (outcome: Outcome)
    ensures
        outcome@ == pwd_answer(
            parsed_args(pwd_usage(), seq!["pwd"@] + texts(raw_args@)),
            text_result(current_dir),
        ),
{
    let argv = argv_for("pwd", raw_args);
    let parsed = parse_args(&usage_of_pwd(), argv);
    pwd_outcome(parsed, current_dir)
}

/// What `cd` has decided.
#[derive(Debug, PartialEq, Eq)]
pub enum CdPlan {
    /// The directory is not changed, and this is the answer.
    Stay(Outcome),
    /// The working directory is to become this one.
    Enter(String),
}

/// The mathematical value of a [`CdPlan`].
pub enum CdPlanView {
    Stay(OutcomeView),
    Enter(Seq<char>),
}

impl View for CdPlan {
    type V = CdPlanView;

    open spec fn view(&self) -> CdPlanView {
        match *self {
            CdPlan::Stay(outcome) => CdPlanView::Stay(outcome@),
            CdPlan::Enter(path) => CdPlanView::Enter(path@),
        }
    }
}

/// What `cd` decides before it looks for the path, if it can decide then.
///
/// A refused line is answered with the refusal, a line without a path with a
/// notice, and a working directory that could not be had with its message,
/// each with exit code 1. Else the path is to be looked for, and nothing is
/// decided yet.
pub open spec fn cd_refusal(
    parsed: Result<Option<Seq<char>>, Seq<char>>,
    current_dir: Result<Seq<char>, Seq<char>>,
) -> Option<OutcomeView> {
    match parsed {
        Err(refusal) => Some(says(refusal, 1)),
        Ok(None) => Some(says("Could not get path argument"@, 1)),
        Ok(Some(_)) => match current_dir {
            Err(message) => Some(says("Could not get current directory: "@ + message, 1)),
            Ok(_) => None,
        },
    }
}

/// What `cd` decides once the path was looked for: to enter the directory
/// found, or to stay and report the error with its exit code.
pub open spec fn cd_verdict(found: Result<Seq<char>, PathErrorView>) -> CdPlanView {
    match found {
        Ok(path) => CdPlanView::Enter(path),
        Err(error) => CdPlanView::Stay(says(error.message(), error.code())),
    }
}

/// What `cd` decides, given how its arguments parsed, the working directory,
/// the home directory, and what the file system says of the path once it is
/// resolved: whether something stands there, and whether that is a directory.
pub open spec fn cd_plan(
    parsed: Result<Option<Seq<char>>, Seq<char>>,
    current_dir: Result<Seq<char>, Seq<char>>,
    home: Option<Seq<char>>,
    exists: bool,
    is_dir: bool,
) -> CdPlanView {
    match cd_refusal(parsed, current_dir) {
        Some(outcome) => CdPlanView::Stay(outcome),
        None => cd_verdict(
            located(parsed->Ok_0->0, current_dir->Ok_0, home, true, exists, is_dir),
        ),
    }
}

/// How `cd` is called: with one path, by default the home directory.
pub open spec fn cd_usage() -> UsageView {
    UsageView {
        name: "cd"@,
        about: "Lush built-in. Change the shell working directory."@,
        author: AUTHOR@,
        positional: Some(
            PositionalView {
                id: "path"@,
                index: 1,
                action: ArgAction::Store,
                default_value: "~"@,
                value_name: "PATH"@,
                help: "the path to change to"@,
            },
        ),
        lookup: Some("path"@),
    }
}

/// How `cd` is called.
fn usage_of_cd() -> (usage: Usage)
    ensures
        usage@ == cd_usage(),
        is_sound(usage@),
{
    proof {
        reveal_strlit("path");
        reveal_strlit("help");
        assert("path"@[0] != "help"@[0]);
    }
    Usage {
        name: "cd",
        about: "Lush built-in. Change the shell working directory.",
        author: AUTHOR,
        positional: Some(
            Positional {
                id: "path",
                index: 1,
                action: ArgAction::Store,
                default_value: "~",
                value_name: "PATH",
                help: "the path to change to",
            },
        ),
        lookup: Some("path"),
    }
}

/// What `clap` makes of the arguments `raw_args` of `cd`.
pub open spec fn cd_parse(raw_args: Seq<Seq<char>>) -> Result<Option<Seq<char>>, Seq<char>> {
    parsed_args(cd_usage(), seq!["cd"@] + raw_args)
}

/// Finds what `cd` works on, the path and the working directory, or decides
/// at once where one of them is missing: see [`cd_refusal`].
pub fn cd_inputs(
    parsed: Result<Option<String>, String>,
    current_dir: Result<String, String>,
) -> (inputs: Result<(String, String), Outcome>)
    ensures
        match inputs {
            Ok((path, cwd)) => {
                &&& parsed_view(parsed) == Ok::<Option<Seq<char>>, Seq<char>>(Some(path@))
                &&& text_result(current_dir) == Ok::<Seq<char>, Seq<char>>(cwd@)
            },
            Err(outcome) => cd_refusal(parsed_view(parsed), text_result(current_dir)) == Some(
                outcome@,
            ),
        },
{
    match parsed {
        Err(refusal) => Err(Outcome::say(refusal, 1)),
        Ok(None) => Err(Outcome::say(String::from_str("Could not get path argument"), 1)),
        Ok(Some(path)) => match current_dir {
            Err(message) => Err(
                Outcome::say(
                    String::from_str("Could not get current directory: ").concat(message.as_str()),
                    1,
                ),
            ),
            Ok(cwd) => Ok((path, cwd)),
        },
    }
}

/// Decides for `cd` once the path was looked for: see [`cd_verdict`].
pub fn cd_decide(found: Result<String, PathError>) -> (plan: CdPlan)
    ensures
        plan@ == cd_verdict(located_view(found)),
{
    match found {
        Ok(path) => CdPlan::Enter(path),
        Err(error) => CdPlan::Stay(Outcome::say(error.message(), error.code())),
    }
}

/// `cd`: decides which directory to change to, if any.
///
/// `current_dir` is the working directory as the system gave it, which is
/// absolute, or the message of its failure. The path comes from `raw_args`,
/// by default `~`, and is resolved as [`locate`] does, with the home
/// directory that the system names; a directory must stand there. To change
/// the directory is left to the caller, who reports a failure with
/// [`cd_failure`]. Where the directory is not changed, the exit code is 1
/// for a refusal, 2 for a missing home directory or path, and 20 for a path
/// that leads to no directory.
pub fn builtin_cd(raw_args: Vec<String>, current_dir: Result<String, String>) -> (plan: CdPlan)
    requires
        current_dir matches Ok(cwd) ==> is_absolute(cwd@),
    ensures
        exists|home: Option<Seq<char>>, there: bool, dir: bool|
            plan@ == #[trigger] cd_plan(
                cd_parse(texts(raw_args@)),
                text_result(current_dir),
                home,
                there,
                dir,
            ),
        plan matches CdPlan::Stay(outcome) ==> outcome.code == 1 || outcome.code == 2
            || outcome.code == 20,
{
    let argv = argv_for("cd", raw_args);
    let parsed = parse_args(&usage_of_cd(), argv);
    match cd_inputs(parsed, current_dir) {
        Err(outcome) => {
            let plan = CdPlan::Stay(outcome);
            assert(plan@ == cd_plan(
                cd_parse(texts(raw_args@)),
                text_result(current_dir),
                None,
                false,
                false,
            ));
            plan
        },
        Ok((input_path, cwd)) => {
            let home = home_dir();
            let ghost home_view = opt_text(home);
            let found = locate(input_path, cwd, home, true);
            let plan = cd_decide(found);
            proof {
                let (there, dir) = choose|there: bool, dir: bool|
                    located_view(found) == located(
                        input_path@,
                        cwd@,
                        home_view,
                        true,
                        there,
                        dir,
                    );
                assert(plan@ == cd_plan(
                    cd_parse(texts(raw_args@)),
                    text_result(current_dir),
                    home_view,
                    there,
                    dir,
                ));
            }
            plan
        },
    }
}

/// What `cd` answers where the system refused to change the directory: the
/// system's message and the path, and the system's error number as exit
/// code, or 1 where it gave none.
pub open spec fn cd_failed(
    message: Seq<char>,
    path: Seq<char>,
    raw_os_error: Option<i32>,
) -> OutcomeView {
    says(
        message + ": "@ + debug_text(path),
        match raw_os_error {
            Some(number) => number as int,
            None => 1,
        },
    )
}

/// Answers for `cd` where the system refused to change the directory to
/// `path`: see [`cd_failed`].
pub fn cd_failure(message: &str, path: &str, raw_os_error: Option<i32>) -> (outcome: Outcome)
    ensures
        outcome@ == cd_failed(message@, path@, raw_os_error),
{
    let line = String::from_str(message).concat(": ").concat(debug_quote(path).as_str());
    let code = match raw_os_error {
        Some(number) => number,
        None => 1,
    };
    Outcome::say(line, code)
}

} // verus!
