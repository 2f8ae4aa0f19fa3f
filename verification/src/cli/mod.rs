//! The command line and its dialogs.
pub mod command;

use vstd::prelude::*;

use command::Commands;

verus! {

/// The command line: one subcommand.
#[derive(Debug, Clone, PartialEq, Eq)]
pub struct Cli {
    pub commands: Commands,
}

} // verus!
