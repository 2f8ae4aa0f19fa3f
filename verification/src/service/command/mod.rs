//! The commands and what each decides.
pub mod add;
pub mod check;
pub mod config;
pub mod create;
pub mod init;
pub mod install;
pub mod package;
pub mod run;
pub mod uninstall;
pub mod wasm;

use vstd::prelude::*;

use create::CreateArgs;
use wasm::WasmArgs;

verus! {

/// The subcommands.
#[derive(Debug, Clone, PartialEq, Eq)]
pub enum Commands {
    /// Create a new project
    Create(CreateArgs),
    /// Check the toolchain
    Check,
    /// Install the toolchain
    Install,
    /// Run the current project
    Run,
    /// Init or reset the command line tool
    Init,
    /// Configure the command line tool
    Config,
    /// Makepad studio
    Studio,
    /// Run a wasm project
    Wasm(WasmArgs),
    /// Package the project
    Pkg,
}

/// Which subcommand, without its arguments.
#[derive(Debug, Clone, Copy, PartialEq, Eq, Structural)]
pub enum CommandKind {
    Create,
    Check,
    Install,
    Run,
    Init,
    Config,
    Studio,
    Wasm,
    Pkg,
}

/// The kind of a subcommand.
pub open spec fn kind_of(c: Commands) -> CommandKind {
    match c {
        Commands::Create(_) => CommandKind::Create,
        Commands::Check => CommandKind::Check,
        Commands::Install => CommandKind::Install,
        Commands::Run => CommandKind::Run,
        Commands::Init => CommandKind::Init,
        Commands::Config => CommandKind::Config,
        Commands::Studio => CommandKind::Studio,
        Commands::Wasm(_) => CommandKind::Wasm,
        Commands::Pkg => CommandKind::Pkg,
    }
}

impl Commands {
    pub fn kind(&self) -> (k: CommandKind)
        ensures
            k == kind_of(*self),
    {
        match self {
            Commands::Create(_) => CommandKind::Create,
            Commands::Check => CommandKind::Check,
            Commands::Install => CommandKind::Install,
            Commands::Run => CommandKind::Run,
            Commands::Init => CommandKind::Init,
            Commands::Config => CommandKind::Config,
            Commands::Studio => CommandKind::Studio,
            Commands::Wasm(_) => CommandKind::Wasm,
            Commands::Pkg => CommandKind::Pkg,
        }
    }
}

} // verus!
