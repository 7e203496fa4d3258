//! The prompt: who, where, and in which directory.

use vstd::prelude::*;
use vstd::string::StringExecFns;
use crate::builtin::dir::{get_cwd, shown_dir};
use crate::builtin::who::{get_user_hostname, get_user_username};
use crate::text::text_result;

verus! {

/// What stands in the prompt in place of a working directory that could not
/// be had.
pub open spec fn unknown_dir() -> Seq<char> {
    seq!['?', '?', '?']
}

/// The prompt for the user `user` on the machine `host` in the directory
/// `dir`: `user@host:dir`.
pub open spec fn prompt_text(user: Seq<char>, host: Seq<char>, dir: Seq<char>) -> Seq<char> {
    user + seq!['@'] + host + seq![':'] + dir
}

/// How the working directory stands in the prompt: in its short form where
/// it could be had, else as `???`.
pub open spec fn prompt_dir(
    current_dir: Result<Seq<char>, Seq<char>>,
    home: Option<Seq<char>>,
) -> Seq<char> {
    match current_dir {
        Ok(dir) => shown_dir(dir, home, true),
        Err(_) => unknown_dir(),
    }
}

/// Puts the prompt together: see [`prompt_text`]. A directory that could
/// not be had is shown as `???`.
pub fn format_prompt(user: &str, host: &str, dir: Result<String, String>) -> (prompt: String)
    ensures
        prompt@ == prompt_text(
            user@,
            host@,
            match dir {
                Ok(shown) => shown@,
                Err(_) => unknown_dir(),
            },
        ),
{
    proof {
        reveal_strlit("@");
        reveal_strlit(":");
        reveal_strlit("???");
        assert("@"@ =~= seq!['@']);
        assert(":"@ =~= seq![':']);
        assert("???"@ =~= unknown_dir());
    }
    let prompt = String::from_str(user).concat("@").concat(host).concat(":");
    match dir {
        Ok(shown) => prompt.concat(shown.as_str()),
        Err(_) => prompt.concat("???"),
    }
}

/// The prompt of the moment. `current_dir` is the working directory as the
/// system gave it, or the message of its failure. The user's name, the
/// machine's name and the home directory, which is shown as `~`, are asked
/// of the system.
pub fn get_prompt(current_dir: Result<String, String>) -> (prompt: String)
    ensures
        exists|user: Seq<char>, host: Seq<char>, home: Option<Seq<char>>|
            prompt@ == #[trigger] prompt_text(
                user,
                host,
                prompt_dir(text_result(current_dir), home),
            ),
{
    let user = get_user_username();
    let host = get_user_hostname();
    let shown = get_cwd(true, current_dir);
    let prompt = format_prompt(user.as_str(), host.as_str(), shown);
    proof {
        let home = if current_dir is Ok {
            choose|home: Option<Seq<char>>|
                text_result(shown) == Ok::<Seq<char>, Seq<char>>(
                    shown_dir(current_dir->Ok_0@, home, true),
                )
        } else {
            None
        };
        assert(prompt@ == prompt_text(user@, host@, prompt_dir(text_result(current_dir), home)));
    }
    prompt
}

} // verus!
