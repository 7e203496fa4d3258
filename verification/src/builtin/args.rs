//! Reading a builtin's arguments with `clap`.

use vstd::prelude::*;
use vstd::string::StringExecFns;
use crate::text::texts;

verus! {

/// What an argument does with a value that the line gives it.
#[derive(Clone, Copy, Debug, PartialEq, Eq, Structural)]
pub enum ArgAction {
    /// It stores that one value, in place of its default: `Set` in `clap`.
    Store,
}

/// The one argument that a builtin takes by position.
pub struct Positional {
    /// The id it is defined under.
    pub id: &'static str,
    /// Its place among the arguments that are given by position, counted
    /// from one.
    pub index: usize,
    /// What it does with its value.
    pub action: ArgAction,
    /// The value it has where the line gives none.
    pub default_value: &'static str,
    /// Its name in the usage line.
    pub value_name: &'static str,
    /// Its line in the help text.
    pub help: &'static str,
}

/// How a builtin is called.
pub struct Usage {
    /// The builtin's name.
    pub name: &'static str,
    /// What it does, for the help text.
    pub about: &'static str,
    /// Who wrote it.
    pub author: &'static str,
    /// The argument it takes by position, if it takes one.
    pub positional: Option<Positional>,
    /// The id under which the value is read once the line is parsed, if one is
    /// read.
    pub lookup: Option<&'static str>,
}

/// The mathematical value of a [`Positional`].
pub struct PositionalView {
    pub id: Seq<char>,
    pub index: nat,
    pub action: ArgAction,
    pub default_value: Seq<char>,
    pub value_name: Seq<char>,
    pub help: Seq<char>,
}

/// The mathematical value of a [`Usage`].
pub struct UsageView {
    pub name: Seq<char>,
    pub about: Seq<char>,
    pub author: Seq<char>,
    pub positional: Option<PositionalView>,
    pub lookup: Option<Seq<char>>,
}

impl View for Positional {
    type V = PositionalView;

    open spec fn view(&self) -> PositionalView {
        PositionalView {
            id: self.id@,
            index: self.index as nat,
            action: self.action,
            default_value: self.default_value@,
            value_name: self.value_name@,
            help: self.help@,
        }
    }
}

impl View for Usage {
    type V = UsageView;

    open spec fn view(&self) -> UsageView {
        UsageView {
            name: self.name@,
            about: self.about@,
            author: self.author@,
            positional: match self.positional {
                Some(positional) => Some(positional@),
                None => None,
            },
            lookup: match self.lookup {
                Some(id) => Some(id@),
                None => None,
            },
        }
    }
}

/// Who wrote the builtins.
pub const AUTHOR: &'static str = "Lush team";

/// The command line of the builtin `name`: its name, then `raw_args`.
pub fn argv_for(name: &str, raw_args: Vec<String>) -> (argv: Vec<String>)
    ensures
        texts(argv@) == seq![name@] + texts(raw_args@),
{
    let mut argv: Vec<String> = Vec::new();
    argv.push(String::from_str(name));
    let mut rest = raw_args;
    argv.append(&mut rest);
    assert(texts(argv@) =~= seq![name@] + texts(raw_args@));
    argv
}

/// What `clap` makes of the command line `argv` for a builtin that is called
/// as `usage` says: the value it then holds under the id that is looked up,
/// nothing where no id is looked up or no value stands under it, or the text
/// of its refusal.
pub uninterp spec fn parsed_args(usage: UsageView, argv: Seq<Seq<char>>) -> Result<
    Option<Seq<char>>,
    Seq<char>,
>;

/// The value of what [`parse_args`] returns.
pub open spec fn parsed_view(parsed: Result<Option<String>, String>) -> Result<
    Option<Seq<char>>,
    Seq<char>,
> {
    match parsed {
        Ok(Some(value)) => Ok(Some(value@)),
        Ok(None) => Ok(None),
        Err(text) => Err(text@),
    }
}

/// Whether `clap` takes `usage` for the description of a command. It adds
/// an argument of the id `help` of its own, and no two arguments may share an
/// id; and the one argument by position must be the first.
pub open spec fn is_sound(usage: UsageView) -> bool {
    usage.positional matches Some(positional) ==> positional.id != "help"@ && positional.index
        == 1
}

/// Parses `argv`, whose first item is the builtin's own name, and reads the
/// value that is looked up.
///
/// Builds a `clap::Command` from `usage`, with a `clap::Arg` for the
/// positional argument where there is one; calls
/// `Command::try_get_matches_from` on `argv`; and, where an id is looked up,
/// asks `ArgMatches::try_get_one` for the string under it. An id that the
/// command does not define gives `Ok(None)`. An `Err` holds the error as
/// `clap` displays it; a request for help is reported so too. The calls read
/// their arguments alone, so the result is named, [`parsed_args`]. A usage
/// that is not sound is left out: built with its checks on, `clap` stops the
/// program for it.
#[verifier::external_body]
pub(crate) fn parse_args(usage: &Usage, argv: Vec<String>) -> (parsed: Result<
    Option<String>,
    String,
>)
    requires
        is_sound(usage@),
    ensures
        parsed_view(parsed) == parsed_args(usage@, texts(argv@)),
{
    let args = usage.positional.iter().map(|p| {
        let action = match p.action { ArgAction::Store => clap::ArgAction::Set };
        clap::Arg::new(p.id).index(p.index).action(action).default_value(p.default_value)
            .value_name(p.value_name).help(p.help)
    });
    let command = clap::Command::new(usage.name).about(usage.about).author(usage.author).args(args);
    match command.try_get_matches_from(argv) {
        Ok(found) => Ok(
            usage.lookup.and_then(|id| found.try_get_one::<String>(id).ok().flatten().cloned()),
        ),
        Err(error) => Err(error.to_string()),
    }
}

} // verus!
