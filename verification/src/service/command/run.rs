//! What `ract run` runs.
use vstd::prelude::*;

use crate::common::same_text;

verus! {

/// The kinds of project `ract run` can run.
#[derive(Debug, Clone, Copy, PartialEq, Eq, Structural)]
pub enum ProjectKind {
    Makepad,
    GenUI,
}

/// The message for a project whose kind `ract run` does not know.
pub open spec fn invalid_kind_message() -> Seq<char> {
    "Invalid project kind"@
}

/// The kind of project that the marker file of a project (`.gpiler`,
/// whose text is `content`) names: `makepad` or `gen_ui`; anything else is
/// an error.
pub fn project_kind(content: &str) -> (r: Result<ProjectKind, String>)
    ensures
        content@ == "makepad"@ ==> r == Ok::<ProjectKind, String>(ProjectKind::Makepad),
        content@ == "gen_ui"@ ==> r == Ok::<ProjectKind, String>(ProjectKind::GenUI),
        content@ != "makepad"@ && content@ != "gen_ui"@ ==> (r matches Err(m) && m@ == invalid_kind_message()),
{
    proof {
        reveal_strlit("makepad");
        reveal_strlit("gen_ui");
        assert("makepad"@.len() == 7);
        assert("gen_ui"@.len() == 6);
    }
    if same_text(content, "makepad") {
        Ok(ProjectKind::Makepad)
    } else if same_text(content, "gen_ui") {
        Ok(ProjectKind::GenUI)
    } else {
        Err("Invalid project kind".to_string())
    }
}

} // verus!
