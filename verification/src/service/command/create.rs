//! The arguments of `ract create`.
use vstd::prelude::*;

verus! {

broadcast use vstd::string::group_string_axioms;

/// Create a new project at `path` (by default the current directory).
#[derive(Debug, Clone, PartialEq, Eq)]
pub struct CreateArgs {
    /// where to create the project
    pub path: String,
}

impl Default for CreateArgs {
    fn default() -> (r: Self)
        ensures
            r.path@ == "."@,
    {
        CreateArgs { path: ".".to_string() }
    }
}

} // verus!
