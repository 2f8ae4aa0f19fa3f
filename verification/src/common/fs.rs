//! Decisions about project directories.
use vstd::prelude::*;

use super::toml::{toml_contains, toml_has_key, toml_parses};

verus! {

/// Texts read from files: `None` where a file could not be read.
pub open spec fn file_texts(files: Seq<Option<String>>) -> Seq<Option<Seq<char>>> {
    files.map_values(|f: Option<String>| match f {
        Some(s) => Some(s@),
        None => None,
    })
}

/// Whether a directory is inside a Rust workspace, judged from the
/// `Cargo.toml` of the directory (`tomls[0]`) and then of its parent
/// (`tomls[1]`): the first one that declares `[workspace]` answers yes; a
/// file that is missing or is not TOML answers no; no more than two levels
/// are looked at.
pub open spec fn workspace_from(tomls: Seq<Option<Seq<char>>>, level: int) -> bool
    decreases 2 - level,
{
    if level < 0 || level >= 2 || level >= tomls.len() {
        false
    } else {
        match tomls[level] {
            None => false,
            Some(c) => if !toml_parses(c) {
                false
            } else if toml_has_key(c, "workspace"@) {
                true
            } else {
                workspace_from(tomls, level + 1)
            },
        }
    }
}

/// Only the directory and its parent count: what lies further up changes nothing.
pub proof fn lemma_workspace_two_levels(tomls: Seq<Option<Seq<char>>>, more: Seq<Option<Seq<char>>>)
    requires
        tomls.len() >= 2,
    ensures
        workspace_from(tomls + more, 0) == workspace_from(tomls, 0),
{
    let all = tomls + more;
    assert(all[0] == tomls[0]);
    assert(all[1] == tomls[1]);
    assert(!workspace_from(all, 2) && !workspace_from(tomls, 2));
    assert(workspace_from(all, 1) == workspace_from(tomls, 1));
}

/// Whether the directory whose `Cargo.toml` is `cargo_tomls[0]` (and whose
/// parent's is `cargo_tomls[1]`; `None` where there is none or it cannot be
/// read) belongs to a Rust workspace.
pub fn is_workspace(cargo_tomls: &Vec<Option<String>>) -> (b: bool)
    ensures
        b == workspace_from(file_texts(cargo_tomls@), 0),
{
    let ghost t = file_texts(cargo_tomls@);
    let mut level: usize = 0;
    while level < 2 && level < cargo_tomls.len()
        invariant
            level <= 2,
            t == file_texts(cargo_tomls@),
            workspace_from(t, 0) == workspace_from(t, level as int),
        decreases 2 - level,
    {
        match &cargo_tomls[level] {
            None => {
                return false;
            },
            Some(content) => {
                assert(t[level as int] == Some(content@));
                match toml_contains(content.as_str(), "workspace") {
                    Err(_) => {
                        return false;
                    },
                    Ok(true) => {
                        return true;
                    },
                    Ok(false) => {},
                }
            },
        }
        level = level + 1;
    }
    false
}

} // verus!
