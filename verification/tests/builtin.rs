use lush::builtin::builtin::{process_command, BuiltIn, Dispatch};
use lush::builtin::echo::{builtin_echo, echo_outcome};
use lush::builtin::outcome::Outcome;
use lush::builtin::who::{
    builtin_whoami, get_user_hostname, get_user_username, whoami_outcome,
};
use lush::command::Command;
use lush::prompt::{format_prompt, get_prompt};
use lush::terminal::DrawOp;
use lush::tokenize::tokenize_command;

fn said(line: &str, code: i32) -> Outcome {
    Outcome { lines: vec![line.to_string()], code }
}

fn run(line: &str, current_dir: Result<String, String>) -> Dispatch {
    process_command(tokenize_command(line.to_string()), current_dir)
}

#[test]
fn builtins_by_name() {
    assert_eq!(BuiltIn::from_str("cd"), Ok(BuiltIn::Cd));
    assert_eq!(BuiltIn::from_str("echo"), Ok(BuiltIn::Echo));
    assert_eq!(BuiltIn::from_str("exit"), Ok(BuiltIn::Exit));
    assert_eq!(BuiltIn::from_str("history"), Ok(BuiltIn::History));
    assert_eq!(BuiltIn::from_str("pwd"), Ok(BuiltIn::Pwd));
    assert_eq!(BuiltIn::from_str("whoami"), Ok(BuiltIn::Whoami));
    assert_eq!(BuiltIn::from_str("who"), Err(()));
    assert_eq!(BuiltIn::from_str("CD"), Err(()));
    assert_eq!(BuiltIn::from_str(""), Err(()));
    assert_eq!(BuiltIn::from_str("cd "), Err(()));
    assert_eq!("pwd".parse::<BuiltIn>(), Ok(BuiltIn::Pwd));
    assert_eq!("ls".parse::<BuiltIn>(), Err(()));
}

#[test]
fn unknown_commands_are_reported() {
    assert_eq!(
        run("ls -l", Ok("/".to_string())),
        Dispatch::Done(said("Command not found: ls", 1))
    );
}

#[test]
fn whoami_is_dispatched() {
    assert_eq!(
        run("whoami", Ok("/".to_string())),
        Dispatch::Done(said(&get_user_username(), 0))
    );
    assert_eq!(
        run("whoami and more", Err("gone".to_string())),
        Dispatch::Done(said(&get_user_username(), 0))
    );
    assert_eq!("whoami".parse::<BuiltIn>(), Ok(BuiltIn::Whoami));
}

#[test]
fn history_writes_its_name() {
    assert_eq!(
        run("history", Ok("/".to_string())),
        Dispatch::Done(said("History", 0))
    );
}

#[test]
fn exit_takes_leave() {
    assert_eq!(
        run("exit now", Err("gone".to_string())),
        Dispatch::Exit(vec![
            DrawOp::ScrollUp(1),
            DrawOp::MoveToNextLine(1),
            DrawOp::CarriageReturn,
            DrawOp::Print("Goodbye :)".to_string()),
            DrawOp::Flush
        ])
    );
}

#[test]
fn pwd_is_dispatched() {
    assert_eq!(
        run("pwd", Ok("/home/user".to_string())),
        Dispatch::Done(said("/home/user", 0))
    );
    assert_eq!(
        run("pwd", Err("gone".to_string())),
        Dispatch::Done(said("Could not get current directory", 1))
    );
}

#[test]
fn cd_is_dispatched() {
    assert_eq!(
        run("cd /", Ok("/".to_string())),
        Dispatch::ChangeDir("/".to_string())
    );
    assert_eq!(
        run("cd no/such/entry/here", Ok("/".to_string())),
        Dispatch::Done(said("No such file or directory: \"no/such/entry/here\"", 2))
    );
}

#[test]
fn echo_answers_with_what_stands_under_path() {
    assert_eq!(
        echo_outcome(Ok(Some("hi".to_string()))),
        said("hi", 0)
    );
    assert_eq!(echo_outcome(Ok(None)), said("Could not get path argument", 1));
    assert_eq!(echo_outcome(Err("refused".to_string())), said("refused", 1));
    // The line defines `sentence` and holds nothing under `path`.
    assert_eq!(
        builtin_echo(vec!["hi".to_string()]),
        said("Could not get path argument", 1)
    );
    assert_eq!(builtin_echo(vec![]), said("Could not get path argument", 1));
    assert_eq!(
        run("echo hi", Ok("/".to_string())),
        Dispatch::Done(said("Could not get path argument", 1))
    );
}

#[test]
fn echo_takes_one_sentence() {
    let outcome = builtin_echo(vec!["one".to_string(), "two".to_string()]);
    assert_eq!(outcome.code, 1);
    assert_eq!(outcome.lines.len(), 1);
    assert!(outcome.lines[0].contains("unexpected argument 'two'"));
    assert!(outcome.lines[0].contains("Usage: echo [SENTENCE]"));
}

#[test]
fn whoami_writes_the_user() {
    assert_eq!(whoami_outcome("me".to_string()), said("me", 0));
    let outcome = builtin_whoami(vec!["ignored".to_string()]);
    assert_eq!(outcome.code, 0);
    assert_eq!(outcome.lines, vec![get_user_username()]);
}

#[test]
fn prompt_is_put_together() {
    assert_eq!(
        format_prompt("me", "box", Ok("~".to_string())),
        "me@box:~"
    );
    assert_eq!(
        format_prompt("me", "box", Ok("/tmp".to_string())),
        "me@box:/tmp"
    );
    assert_eq!(format_prompt("me", "box", Err("gone".to_string())), "me@box:???");
}

#[test]
fn prompt_of_the_moment() {
    let head = format!("{}@{}:", get_user_username(), get_user_hostname());
    assert_eq!(get_prompt(Err("gone".to_string())), format!("{}???", head));
    assert_eq!(
        get_prompt(Ok("/no/home/here".to_string())),
        format!("{}/no/home/here", head)
    );
}

#[test]
fn command_written_out() {
    let command = Command {
        keyword: "cd".to_string(),
        args: vec!["a b".to_string(), "c\"d".to_string()],
    };
    assert_eq!(
        command.to_debug_string(),
        "Command { keyword: cd, args: [\"a b\", \"c\\\"d\"] }"
    );
    let bare = Command { keyword: "pwd".to_string(), args: vec![] };
    assert_eq!(bare.to_debug_string(), "Command { keyword: pwd, args: [] }");
    let one = Command { keyword: "cd".to_string(), args: vec!["a, b".to_string()] };
    assert_eq!(one.to_debug_string(), "Command { keyword: cd, args: [\"a, b\"] }");
    let three = Command {
        keyword: "echo".to_string(),
        args: vec!["x".to_string(), "".to_string(), "z\n".to_string()],
    };
    assert_eq!(
        three.to_debug_string(),
        "Command { keyword: echo, args: [\"x\", \"\", \"z\\n\"] }"
    );
}

#[test]
fn command_from_words() {
    let command = Command::from_words(vec!["a".to_string(), "b".to_string(), "c".to_string()]);
    assert_eq!(command.keyword, "a");
    assert_eq!(command.args, vec!["b".to_string(), "c".to_string()]);
}
