//! What `ract wasm` runs.
use vstd::prelude::*;

use crate::cli::command::wasm::{parse_port, parse_port_spec};
use crate::common::same_text;
use crate::common::toml::{toml_get_str, toml_parses, toml_str_at, TomlStr};

verus! {

broadcast use vstd::string::group_string_axioms;

/// The arguments of `ract wasm`: the package to run, if named.
#[derive(Debug, Clone, PartialEq, Eq)]
pub struct WasmArgs {
    pub project: Option<String>,
}

/// Where `ract wasm` finds the package to run.
#[derive(Debug, Clone, PartialEq, Eq)]
pub enum WasmTarget {
    /// the package named on the command line
    Project(String),
    /// the package of the current directory, whose kind `.gpiler` names
    FromMarker,
    /// no package named and no `.gpiler` in the current directory
    NoMarker,
}

/// The port typed by the user, or `Invalid port!`.
pub fn port_of(text: &str) -> (r: Result<u16, String>)
    ensures
        parse_port_spec(text@) matches Ok(p) ==> r == Ok::<u16, String>(p),
        parse_port_spec(text@) is Err ==> (r matches Err(m) && m@ == "Invalid port!"@),
{
    match parse_port(text) {
        Ok(p) => Ok(p),
        Err(_) => Err("Invalid port!".to_string()),
    }
}

impl WasmArgs {
    /// The package to run: the one named, else the current directory's
    /// where it has a `.gpiler` marker.
    pub fn target(&self, marker_exists: bool) -> (t: WasmTarget)
        ensures
            match self.project {
                Some(p) => t matches WasmTarget::Project(q) && q@ == p@,
                None => t == (if marker_exists {
                    WasmTarget::FromMarker
                } else {
                    WasmTarget::NoMarker
                }),
            },
    {
        match &self.project {
            Some(p) => WasmTarget::Project(p.clone()),
            None => if marker_exists {
                WasmTarget::FromMarker
            } else {
                WasmTarget::NoMarker
            },
        }
    }
}

/// Whether the package of a `Cargo.toml` (whose text is `cargo_toml`) can
/// be looked up: where it is TOML, `package.name` is a string.
pub open spec fn package_name_readable(cargo_toml: Seq<char>) -> bool {
    toml_parses(cargo_toml) ==> toml_str_at(cargo_toml, "package"@, "name"@) matches Some(Some(_))
}

/// The package to run in the current directory, given the text of its
/// `.gpiler` marker and of its `Cargo.toml`: the package's name where the
/// marker says `makepad`.  A `Cargo.toml` that is not TOML is an error (its
/// parser's message); so is any other marker (`Invalid project kind`).
pub fn run_wasm(marker: &str, cargo_toml: &str) -> (r: Result<String, String>)
    requires
        package_name_readable(cargo_toml@),
    ensures
        !toml_parses(cargo_toml@) ==> r is Err,
        toml_parses(cargo_toml@) && marker@ == "makepad"@ ==> (r matches Ok(name) && toml_str_at(
            cargo_toml@,
            "package"@,
            "name"@,
        ) == Some(Some(name@))),
        toml_parses(cargo_toml@) && marker@ != "makepad"@ ==> (r matches Err(m) && m@
            == "Invalid project kind"@),
{
    let name = match toml_get_str(cargo_toml, "package", "name") {
        Err(e) => {
            return Err(e);
        },
        Ok(TomlStr::Found(name)) => name,
        Ok(_) => {
            return Err(String::new());
        },
    };
    if same_text(marker, "makepad") {
        Ok(name)
    } else {
        Err("Invalid project kind".to_string())
    }
}

/// `run_wasm` where the package's name can be looked up; `None` where
/// `Cargo.toml` is TOML but `package.name` is missing or not a string.
pub fn try_run_wasm(marker: &str, cargo_toml: &str) -> (r: Option<Result<String, String>>)
    ensures
        r is Some <==> package_name_readable(cargo_toml@),
        r matches Some(res) ==> {
            &&& !toml_parses(cargo_toml@) ==> res is Err
            &&& toml_parses(cargo_toml@) && marker@ == "makepad"@ ==> (res matches Ok(name)
                && toml_str_at(cargo_toml@, "package"@, "name"@) == Some(Some(name@)))
            &&& toml_parses(cargo_toml@) && marker@ != "makepad"@ ==> (res matches Err(m) && m@
                == "Invalid project kind"@)
        },
{
    match toml_get_str(cargo_toml, "package", "name") {
        Ok(TomlStr::Found(_)) | Err(_) => Some(run_wasm(marker, cargo_toml)),
        Ok(_) => None,
    }
}

} // verus!
