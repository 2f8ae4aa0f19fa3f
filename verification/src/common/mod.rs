//! Helpers shared by the commands: project files and TOML documents.
pub mod fs;
pub mod toml;

use vstd::prelude::*;

verus! {

broadcast use vstd::string::group_string_axioms;

/// Whether two texts are the same.
pub fn same_text(a: &str, b: &str) -> (r: bool)
    ensures
        r == (a@ == b@),
{
    a.to_string() == b.to_string()
}

} // verus!
