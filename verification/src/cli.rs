//! The command line: `syscfg mksnap [-o path]`, `syscfg save [-o path]` and
//! `syscfg load [-i path]`. A subcommand is required.

use vstd::prelude::*;

use crate::text::str_eq;

verus! {

/// What the user asked for.
#[derive(Debug, Clone, PartialEq, Eq)]
pub enum CliCommand {
    /// Create a snapshot directory with a default configuration.
    MkSnap { output: Option<String> },
    /// Save the system's configuration into the snapshot.
    Save { output: Option<String> },
    /// Load the snapshot's configuration onto the system.
    Load { input: Option<String> },
}

/// A parsed command line.
#[derive(Debug, Clone, PartialEq, Eq)]
pub struct Cli {
    pub command: CliCommand,
}

/// One subcommand of the grammar: its name, the id of its path option, and the
/// short flag that sets that option.
#[derive(Debug, Clone, Copy, PartialEq, Eq)]
pub struct SubcommandSpec {
    pub name: &'static str,
    pub option: &'static str,
    pub short: char,
}

/// The subcommands, each with its single optional path argument.
pub fn subcommand_specs() -> (v: Vec<SubcommandSpec>)
    ensures
        v@.len() == 3,
        v@[0].name@ == "mksnap"@ && v@[0].option@ == "output"@ && v@[0].short == 'o',
        v@[1].name@ == "save"@ && v@[1].option@ == "output"@ && v@[1].short == 'o',
        v@[2].name@ == "load"@ && v@[2].option@ == "input"@ && v@[2].short == 'i',
{
    let mut v = Vec::new();
    v.push(SubcommandSpec { name: "mksnap", option: "output", short: 'o' });
    v.push(SubcommandSpec { name: "save", option: "output", short: 'o' });
    v.push(SubcommandSpec { name: "load", option: "input", short: 'i' });
    v
}

/// The command that the subcommand `name` with path argument `path` stands for.
pub open spec fn spec_command(name: Seq<char>, path: Option<String>) -> Option<CliCommand> {
    if name == "mksnap"@ {
        Some(CliCommand::MkSnap { output: path })
    } else if name == "save"@ {
        Some(CliCommand::Save { output: path })
    } else if name == "load"@ {
        Some(CliCommand::Load { input: path })
    } else {
        None
    }
}

impl Cli {
    /// Builds the command line from the subcommand that was matched and the value
    /// of its path option; `None` for a name that is not a subcommand.
    pub fn from_matches(subcommand: &str, path: Option<String>) -> (r: Option<Cli>)
        ensures
            r == (match spec_command(subcommand@, path) {
                Some(command) => Some(Cli { command }),
                None => None,
            }),
    {
        if str_eq(subcommand, "mksnap") {
            Some(Cli { command: CliCommand::MkSnap { output: path } })
        } else if str_eq(subcommand, "save") {
            Some(Cli { command: CliCommand::Save { output: path } })
        } else if str_eq(subcommand, "load") {
            Some(Cli { command: CliCommand::Load { input: path } })
        } else {
            None
        }
    }
}

/// Each subcommand keeps the path it was given, unchanged, in its own field:
/// `mksnap` and `save` as their output, `load` as its input; no other name is a
/// subcommand.
pub proof fn lemma_command_keeps_path(name: Seq<char>, path: Option<String>)
    ensures
        spec_command("mksnap"@, path) == Some(CliCommand::MkSnap { output: path }),
        spec_command("save"@, path) == Some(CliCommand::Save { output: path }),
        spec_command("load"@, path) == Some(CliCommand::Load { input: path }),
        name != "mksnap"@ && name != "save"@ && name != "load"@ ==> spec_command(name, path) is None,
{
    reveal_strlit("mksnap");
    reveal_strlit("save");
    reveal_strlit("load");
    assert("save"@.len() != "mksnap"@.len());
    assert("load"@.len() != "mksnap"@.len());
    assert("load"@[0] != "save"@[0]);
}

} // verus!
