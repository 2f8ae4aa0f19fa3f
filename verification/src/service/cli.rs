//! The command line and the order in which it runs things.
use vstd::prelude::*;

use super::command::{kind_of, CommandKind, Commands};

verus! {

/// The command line: one subcommand.
#[derive(Debug, Clone, PartialEq, Eq)]
pub struct Cli {
    pub commands: Commands,
}

/// A step of what a command line runs.
#[derive(Debug, Clone, Copy, PartialEq, Eq, Structural)]
pub enum Step {
    /// initialise (or reset) the configuration
    Init,
    /// check the configuration, initialising it where it is missing
    InitCheck,
    /// run a subcommand
    Run(CommandKind),
}

impl Cli {
    /// The steps this command line runs, in order: `init` runs alone; any
    /// other subcommand runs after the configuration has been checked.
    pub fn match_cmd(&self) -> (steps: Vec<Step>)
        ensures
            steps@ == (if self.commands is Init {
                seq![Step::Init]
            } else {
                seq![Step::InitCheck, Step::Run(kind_of(self.commands))]
            }),
    {
        if let Commands::Init = &self.commands {
            vec![Step::Init]
        } else {
            let kind = self.commands.kind();
            vec![Step::InitCheck, Step::Run(kind)]
        }
    }
}

} // verus!
