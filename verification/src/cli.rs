//! The command line: an optional subcommand, or the command to run and watch.
use vstd::prelude::*;

verus! {

/// The arguments of the program.
pub struct Cli {
    /// A subcommand, when one is given.
    pub command: Option<CliCommand>,
    /// Otherwise the command to run, with its arguments.
    pub target_args: Vec<String>,
}

/// The subcommands.
#[derive(Debug, PartialEq, Eq, Structural)]
pub enum CliCommand {
    /// Open the configuration file in an editor.
    Edit,
    /// Add a transport to the configuration, asking for its settings.
    Configure { transport: TransportKind },
}

/// The kinds of transport that can be configured interactively.
#[derive(Clone, Copy, Debug, PartialEq, Eq, Structural)]
pub enum TransportKind {
    Http,
}

/// What the program does for a command line.
pub enum Task {
    /// Open the configuration file in an editor.
    EditConfig,
    /// Configure a transport of this kind.
    Configure(TransportKind),
    /// Run this command and send notifications when it exits.
    Run(Vec<String>),
}

impl Cli {
    /// The task that the command line asks for: a subcommand when there is
    /// one, else running the target command.
    pub fn task(self) -> (r: Task)
        ensures
            self.command == Some(CliCommand::Edit) ==> r is EditConfig,
            self.command matches Some(CliCommand::Configure { transport: k }) ==> r == Task::Configure(k),
            self.command is None ==> (r matches Task::Run(args) && args@ == self.target_args@),
    {
        match self.command {
            Some(CliCommand::Edit) => Task::EditConfig,
            Some(CliCommand::Configure { transport }) => Task::Configure(transport),
            None => Task::Run(self.target_args),
        }
    }
}

} // verus!
