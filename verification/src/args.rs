//! The invocation surface: the subcommands and the rule that resolves a bare
//! invocation.
//!
//! `run` runs the interactive program directly; `serve` starts the session
//! daemon; `attach` connects to a running session; `list` enumerates
//! sessions. A bare directory argument with no subcommand is equivalent to
//! `run`.

use vstd::prelude::*;

verus! {

/// The subcommands.
#[derive(Debug, Clone, PartialEq, Eq)]
pub enum Commands {
    /// Run the interactive program directly, attached to current stdio.
    Run { shortcut_dir: String },
    /// Start the session daemon.
    Serve { shortcut_dir: String, session: String },
    /// Attach to a running session.
    Attach { session: String },
    /// List known sessions and their liveness.
    List,
}

/// The parsed command line: an optional bare directory argument, kept for
/// backward compatibility, and an optional subcommand.
pub struct Args {
    /// Used only when no subcommand is given.
    pub shortcut_dir: Option<String>,
    /// The subcommand, if one was given.
    pub command: Option<Commands>,
}

/// What a parsed command line means: the subcommand if one was given, else
/// `run` against the bare directory argument, else `run` against the
/// current directory.
pub fn effective_command(args: Args) -> (c: Commands)
    ensures
        match args.command {
            Some(given) => c == given,
            None => match args.shortcut_dir {
                Some(d) => c == (Commands::Run { shortcut_dir: d }),
                None => c matches Commands::Run { shortcut_dir } && shortcut_dir@ == "."@,
            },
        },
{
    match args.command {
        Some(given) => given,
        None => match args.shortcut_dir {
            Some(d) => Commands::Run { shortcut_dir: d },
            None => Commands::Run { shortcut_dir: ".".to_owned() },
        },
    }
}

} // verus!
