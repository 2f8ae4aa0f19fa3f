//! What `ract config` decides and edits.
use vstd::prelude::*;

use crate::common::same_text;
use crate::common::toml::{toml_parses, toml_set_str, toml_with_str_at};

verus! {

broadcast use vstd::string::group_string_axioms;

/// Whether the user asked to see the configuration (`get`) rather than to
/// change it.
pub fn get_or_set(answer: &str) -> (is_get: bool)
    ensures
        is_get == (answer@ == "get"@),
{
    same_text(answer, "get")
}

/// Whether `dependencies.makepad-widgets` of a `Cargo.toml` (its text is
/// `c`) can be set: where it is TOML, `dependencies` is missing, a table or
/// an inline table.
pub open spec fn dependencies_settable(c: Seq<char>, path: Seq<char>) -> bool {
    toml_parses(c) ==> toml_with_str_at(c, "dependencies"@, "makepad-widgets"@, path) is Some
}

/// The `Cargo.toml` of `gen_components` (its text is `cargo_toml`) once its
/// `makepad-widgets` dependency points to `path`, as `ract config` writes it
/// back when the Makepad sources move.  A text that is not TOML is an error
/// (its parser's message).
pub fn point_makepad_widgets(cargo_toml: &str, path: &str) -> (r: Result<String, String>)
    requires
        dependencies_settable(cargo_toml@, path@),
    ensures
        r is Ok <==> toml_parses(cargo_toml@),
        r matches Ok(s) ==> toml_with_str_at(cargo_toml@, "dependencies"@, "makepad-widgets"@, path@)
            == Some(s@),
{
    match toml_set_str(cargo_toml, "dependencies", "makepad-widgets", path) {
        Ok(Some(s)) => Ok(s),
        Ok(None) => Err(String::new()),
        Err(e) => Err(e),
    }
}

/// `point_makepad_widgets` where the entry can be set; `None` where the
/// `Cargo.toml` is TOML but its `dependencies` is something else than a table.
pub fn try_point_makepad_widgets(cargo_toml: &str, path: &str) -> (r: Option<Result<String, String>>)
    ensures
        r is Some <==> dependencies_settable(cargo_toml@, path@),
        r matches Some(res) ==> {
            &&& res is Ok <==> toml_parses(cargo_toml@)
            &&& res matches Ok(s) ==> toml_with_str_at(
                cargo_toml@,
                "dependencies"@,
                "makepad-widgets"@,
                path@,
            ) == Some(s@)
        },
{
    match toml_set_str(cargo_toml, "dependencies", "makepad-widgets", path) {
        Ok(None) => None,
        _ => Some(point_makepad_widgets(cargo_toml, path)),
    }
}

} // verus!
