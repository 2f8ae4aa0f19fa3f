//! What `ract add` writes into a GenUI project.
use vstd::prelude::*;

use crate::common::toml::{toml_parses, toml_set_str, toml_with_str_at};

verus! {

broadcast use vstd::string::group_string_axioms;

/// Where a plugin is downloaded to, inside the project: `.plugins/<name>`.
pub open spec fn plugin_dir(plugin: Seq<char>) -> Seq<char> {
    ".plugins/"@ + plugin
}

/// `.plugins/<name>`.
pub fn plugin_path(plugin: &str) -> (p: String)
    ensures
        p@ == plugin_dir(plugin@),
{
    let mut p = ".plugins/".to_string();
    p.append(plugin);
    p
}

/// The `gen_ui.toml` of a project (its text is `gen_ui_toml`) with the
/// plugin registered: `plugins.<name> = ".plugins/<name>"`.  A text that
/// is not TOML, or whose `plugins` is neither a table nor an inline table,
/// is an error.
pub fn register_plugin(gen_ui_toml: &str, plugin: &str) -> (r: Result<String, String>)
    ensures
        (toml_parses(gen_ui_toml@) && toml_with_str_at(gen_ui_toml@, "plugins"@, plugin@, plugin_dir(plugin@)) is Some)
            <==> r is Ok,
        r matches Ok(s) ==> toml_with_str_at(gen_ui_toml@, "plugins"@, plugin@, plugin_dir(plugin@)) == Some(s@),
{
    let path = plugin_path(plugin);
    match toml_set_str(gen_ui_toml, "plugins", plugin, path.as_str()) {
        Ok(Some(s)) => Ok(s),
        Ok(None) => Err("`plugins` in gen_ui.toml is not a table".to_string()),
        Err(e) => Err(e),
    }
}

} // verus!
