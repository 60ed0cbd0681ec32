use vstd::prelude::*;
use vstd::string::StringExecFns;

use crate::argvalidator::validate_args;
use crate::errors::CliConfigError;
use crate::errors::CliErrorView;
use crate::errors::result_deep_view;

verus! {

/// A fully validated command: no variant can exist with a missing required
/// field, so construction always follows a successful arity check.
#[derive(Debug, PartialEq)]
pub enum Command {
    Ls,
    LsLo,
    Cat { file: String },
    Edit { file: String },
    Get { file: String },
    Put { file: String },
    Bump { file_from: String, file_to: String },
    Diff { file_a: String, file_b: String },
}

/// Spec-level shape of a [`Command`]: each filename as a sequence of
/// characters.
pub enum CommandView {
    Ls,
    LsLo,
    Cat { file: Seq<char> },
    Edit { file: Seq<char> },
    Get { file: Seq<char> },
    Put { file: Seq<char> },
    Bump { file_from: Seq<char>, file_to: Seq<char> },
    Diff { file_a: Seq<char>, file_b: Seq<char> },
}

impl View for Command {
    type V = CommandView;

    open spec fn view(&self) -> CommandView {
        match self {
            Command::Ls => CommandView::Ls,
            Command::LsLo => CommandView::LsLo,
            Command::Cat { file } => CommandView::Cat { file: file@ },
            Command::Edit { file } => CommandView::Edit { file: file@ },
            Command::Get { file } => CommandView::Get { file: file@ },
            Command::Put { file } => CommandView::Put { file: file@ },
            Command::Bump { file_from, file_to } => CommandView::Bump {
                file_from: file_from@,
                file_to: file_to@,
            },
            Command::Diff { file_a, file_b } => CommandView::Diff {
                file_a: file_a@,
                file_b: file_b@,
            },
        }
    }
}

impl DeepView for Command {
    type V = CommandView;

    open spec fn deep_view(&self) -> CommandView {
        self.view()
    }
}

/// The aggregated error for one or more absent positional arguments.
pub open spec fn spec_missing_arguments() -> CliErrorView {
    CliErrorView::CliArgError("Missing argument"@)
}

/// What resolving a verb with its two optional positional arguments must
/// produce. `ls` and `lslo` ignore the arguments; `cat`, `edit`, `get` and
/// `put` require one filename, held verbatim; `bump` requires two version
/// labels, each suffixed with `.conf`; `diff` requires two filenames, held
/// verbatim.
pub open spec fn spec_resolve_command(
    cmd: Option<Seq<char>>,
    arg1: Option<Seq<char>>,
    arg2: Option<Seq<char>>,
) -> Result<CommandView, CliErrorView> {
    match cmd {
        None => Err(CliErrorView::CliArgError("Missing command"@)),
        Some(c) => if c == "ls"@ {
            Ok(CommandView::Ls)
        } else if c == "lslo"@ {
            Ok(CommandView::LsLo)
        } else if c == "cat"@ {
            match arg1 {
                Some(f) => Ok(CommandView::Cat { file: f }),
                None => Err(spec_missing_arguments()),
            }
        } else if c == "edit"@ {
            match arg1 {
                Some(f) => Ok(CommandView::Edit { file: f }),
                None => Err(spec_missing_arguments()),
            }
        } else if c == "get"@ {
            match arg1 {
                Some(f) => Ok(CommandView::Get { file: f }),
                None => Err(spec_missing_arguments()),
            }
        } else if c == "put"@ {
            match arg1 {
                Some(f) => Ok(CommandView::Put { file: f }),
                None => Err(spec_missing_arguments()),
            }
        } else if c == "bump"@ {
            match (arg1, arg2) {
                (Some(a), Some(b)) => Ok(
                    CommandView::Bump { file_from: a + ".conf"@, file_to: b + ".conf"@ },
                ),
                _ => Err(spec_missing_arguments()),
            }
        } else if c == "diff"@ {
            match (arg1, arg2) {
                (Some(a), Some(b)) => Ok(CommandView::Diff { file_a: a, file_b: b }),
                _ => Err(spec_missing_arguments()),
            }
        } else {
            Err(CliErrorView::CliArgError("Invalid command"@))
        },
    }
}

/// Turns a version label into the stored filename by appending the fixed
/// configuration suffix.
pub fn bump_to_conf(version: &str) -> (r: String)
    ensures
        r@ == version@ + ".conf"@,
{
    let mut name = String::from_str(version);
    name.append(".conf");
    name
}

impl Command {
    pub fn from_cli(cmd: Option<&String>, arg1: Option<&String>, arg2: Option<&String>) -> (r:
        Result<Command, CliConfigError>)
        ensures
            result_deep_view(r) == spec_resolve_command(
                cmd.deep_view(),
                arg1.deep_view(),
                arg2.deep_view(),
            ),
    {
        let cli_cmd = match cmd {
            Some(v) => v,
            None => {
                return Err(CliConfigError::CliArgError(String::from_str("Missing command")));
            },
        };
        if *cli_cmd == String::from_str("ls") {
            Ok(Command::Ls)
        } else if *cli_cmd == String::from_str("lslo") {
            Ok(Command::LsLo)
        } else if *cli_cmd == String::from_str("cat") {
            let mut args: Vec<Option<&String>> = Vec::new();
            args.push(arg1);
            assert(args@[0] == arg1);
            match validate_args(&args) {
                Err(e) => Err(e),
                Ok(()) => Ok(Command::Cat { file: arg1.unwrap().clone() }),
            }
        } else if *cli_cmd == String::from_str("edit") {
            let mut args: Vec<Option<&String>> = Vec::new();
            args.push(arg1);
            assert(args@[0] == arg1);
            match validate_args(&args) {
                Err(e) => Err(e),
                Ok(()) => Ok(Command::Edit { file: arg1.unwrap().clone() }),
            }
        } else if *cli_cmd == String::from_str("get") {
            let mut args: Vec<Option<&String>> = Vec::new();
            args.push(arg1);
            assert(args@[0] == arg1);
            match validate_args(&args) {
                Err(e) => Err(e),
                Ok(()) => Ok(Command::Get { file: arg1.unwrap().clone() }),
            }
        } else if *cli_cmd == String::from_str("put") {
            let mut args: Vec<Option<&String>> = Vec::new();
            args.push(arg1);
            assert(args@[0] == arg1);
            match validate_args(&args) {
                Err(e) => Err(e),
                Ok(()) => Ok(Command::Put { file: arg1.unwrap().clone() }),
            }
        } else if *cli_cmd == String::from_str("bump") {
            let mut args: Vec<Option<&String>> = Vec::new();
            args.push(arg1);
            args.push(arg2);
            assert(args@[0] == arg1 && args@[1] == arg2);
            match validate_args(&args) {
                Err(e) => Err(e),
                Ok(()) => Ok(
                    Command::Bump {
                        file_from: bump_to_conf(arg1.unwrap().as_str()),
                        file_to: bump_to_conf(arg2.unwrap().as_str()),
                    },
                ),
            }
        } else if *cli_cmd == String::from_str("diff") {
            let mut args: Vec<Option<&String>> = Vec::new();
            args.push(arg1);
            args.push(arg2);
            assert(args@[0] == arg1 && args@[1] == arg2);
            match validate_args(&args) {
                Err(e) => Err(e),
                Ok(()) => Ok(
                    Command::Diff {
                        file_a: arg1.unwrap().clone(),
                        file_b: arg2.unwrap().clone(),
                    },
                ),
            }
        } else {
            Err(CliConfigError::CliArgError(String::from_str("Invalid command")))
        }
    }
}

} // verus!
