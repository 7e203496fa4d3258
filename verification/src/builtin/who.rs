//! Who is at the keyboard, and on which machine.

use vstd::prelude::*;
use crate::builtin::outcome::{says, Outcome};

verus! {

/// The name of the user who runs the process, as `whoami::username` gives it.
/// It is read from the operating system, so nothing is promised of it.
#[verifier::external_body]
pub fn get_user_username() -> (name: String) {
    whoami::username()
}

/// The name of the machine, as `whoami::hostname` gives it. It is read from
/// the operating system, so nothing is promised of it.
#[verifier::external_body]
#[allow(deprecated)]
pub fn get_user_hostname() -> (name: String) {
    whoami::hostname()
}

/// What `whoami` answers for a user of the name `username`: the name, and
/// success.
pub fn whoami_outcome(username: String) -> (outcome: Outcome)
    ensures
        outcome@ == says(username@, 0),
{
    Outcome::say(username, 0)
}

/// `whoami`: writes the user's name, whatever arguments it is given, and
/// succeeds.
pub fn builtin_whoami(_args: Vec<String>) -> (outcome: Outcome)
    ensures
        exists|username: Seq<char>| outcome@ == says(username, 0),
{
    whoami_outcome(get_user_username())
}

} // verus!
