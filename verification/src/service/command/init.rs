//! What `ract init` does before any other command.
use vstd::prelude::*;

verus! {

/// What happens before a command runs.
#[derive(Debug, Clone, Copy, PartialEq, Eq, Structural)]
pub enum InitStep {
    /// the configuration is there: look for a newer version
    CheckUpdate,
    /// the configuration is missing: create `.env` and `chain/env.toml`
    Init,
}

/// Before a command runs: where the configuration (`.env`) is in place,
/// look for updates; otherwise initialise it.
pub fn check(env_ok: bool) -> (s: InitStep)
    ensures
        s == (if env_ok {
            InitStep::CheckUpdate
        } else {
            InitStep::Init
        }),
{
    if env_ok {
        InitStep::CheckUpdate
    } else {
        InitStep::Init
    }
}

} // verus!
