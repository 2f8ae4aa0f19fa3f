//! The arguments of `ract update`.
use vstd::prelude::*;

verus! {

/// Update the command line tool; `force` reinstalls even when it is current.
#[derive(Debug, Clone, Copy, PartialEq, Eq, Structural)]
pub struct UpdateArgs {
    pub force: bool,
}

impl Default for UpdateArgs {
    fn default() -> (r: Self)
        ensures
            !r.force,
    {
        UpdateArgs { force: false }
    }
}

} // verus!
