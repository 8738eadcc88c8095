//! The command line, once parsed: which command was given, and what is to
//! be done for it. Parsing the arguments, running git and printing are the
//! caller's part.

use vstd::prelude::*;

verus! {

/// What is printed when no command was given.
pub const NO_COMMAND: &'static str = "No command provided.";

/// What is reported for a command that is not there yet.
pub const NOT_IMPLEMENTED: &'static str = "web-search is not implemented";

/// The exit code for a command that is not there yet.
pub const EXIT_NOT_IMPLEMENTED: i32 = 2;

/// The parsed command line. `G` is the git handler's own type for a git
/// subcommand; the dispatcher passes it on unread.
#[derive(Debug)]
pub struct Cli<G> {
    pub commands: Option<Commands<G>>,
}

/// The commands of the program.
#[derive(Debug)]
pub enum Commands<G> {
    /// Git repo interactions.
    Git { com: G },
    /// Search the web.
    WebSearch {},
}

/// What the caller is to do for a command line.
#[derive(Debug)]
pub enum Step<'a, G> {
    /// Hand the subcommand to the git handler.
    RunGit { com: &'a G },
    /// Print the message and end the process with the code.
    Leave { message: &'static str, code: i32 },
}

/// Decides what is to be done for a command line: a git subcommand goes to
/// the git handler as it is; without a command the program says so and ends
/// normally; a web search ends it with an error, since there is none yet.
pub fn handle_commands<G>(cli: &Cli<G>) -> (step: Step<'_, G>)
    ensures
        cli.commands is None ==> (step matches Step::Leave { message, code } && message@
            == NO_COMMAND@ && code == 0),
        cli.commands matches Some(Commands::Git { com }) ==> (step matches Step::RunGit {
            com: handed,
        } && *handed == com),
        cli.commands matches Some(Commands::WebSearch {  }) ==> (step matches Step::Leave {
            message,
            code,
        } && message@ == NOT_IMPLEMENTED@ && code == EXIT_NOT_IMPLEMENTED),
{
    match &cli.commands {
        Some(command) => match command {
            Commands::Git { com } => Step::RunGit { com },
            Commands::WebSearch {  } => Step::Leave {
                message: NOT_IMPLEMENTED,
                code: EXIT_NOT_IMPLEMENTED,
            },
        },
        None => Step::Leave { message: NO_COMMAND, code: 0 },
    }
}

} // verus!
