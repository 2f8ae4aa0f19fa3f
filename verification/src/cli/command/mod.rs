//! The commands' dialogs, as state machines driven by keys and by the
//! outcomes of the work they ask for.
pub mod check;
pub mod config;
pub mod create;
pub mod init;
pub mod install;
pub mod studio;
pub mod uninstall;
pub mod update;
pub mod wasm;

use vstd::prelude::*;

use crate::service::command::wasm::WasmArgs;
use create::CreateArgs;
use update::UpdateArgs;

verus! {

/// The subcommands.
#[derive(Debug, Clone, PartialEq, Eq)]
pub enum Commands {
    /// Build a Makepad or GenUI project template from the user's answers
    Create(CreateArgs),
    /// Check whether the required tools and dependencies are installed
    Check,
    /// Install the required tools and dependencies
    Install,
    /// Run a Makepad or GenUI project
    Run,
    /// Initialise or reset the command line tool
    Init,
    /// Set or update environment variables and configuration
    Config,
    /// Start Makepad Studio
    Studio,
    /// Build and run a WASM project
    Wasm(WasmArgs),
    /// Package a project with `cargo-packager`
    Pkg,
    /// Add a plugin to the project
    Add { name: String },
    /// Update the command line tool
    Update(UpdateArgs),
    /// Uninstall the command line tool
    Uninstall,
}

} // verus!
