//! What `ract check` finds of the toolchain.
use vstd::prelude::*;

use crate::common::toml::{toml_get_str, toml_parses, toml_str_at, toml_str_view, TomlStr};

verus! {

broadcast use vstd::string::group_string_axioms;

/// Whether `which::which` finds an executable named `name` on the search
/// path.  Nothing is claimed: the answer depends on the machine.
#[verifier::external_body]
fn tool_found(name: &str) -> bool {
    which::which(name).is_ok()
}

/// Whether `gen_utils::common::fs::exists_dir` finds a directory at `path`.
/// Nothing is claimed: the answer depends on the disk.
#[verifier::external_body]
fn dir_found(path: &str) -> bool {
    gen_utils::common::fs::exists_dir(path)
}

/// Whether `gen_utils::common::RustDependence::from_str` reads `text` as a
/// line of a `[dependencies]` table.
pub uninterp spec fn rust_dependence_parses(text: Seq<char>) -> bool;

/// `RustDependence::from_str(text).is_ok()`.  Claimed: the result is
/// `rust_dependence_parses(text@)`, a function of the text alone.
#[verifier::external_body]
fn parses_as_dependence(text: &str) -> (b: bool)
    ensures
        b == rust_dependence_parses(text@),
{
    <gen_utils::common::RustDependence as std::str::FromStr>::from_str(text).is_ok()
}

/// The basic tools: `rustc`, `cargo` and `git`.
#[derive(Debug, Clone, Copy, PartialEq, Eq, Structural)]
pub struct BasicTools {
    pub rustc: bool,
    pub cargo: bool,
    pub git: bool,
}

/// The Makepad toolchain: the `makepad-widgets` and `gen_components` sources.
#[derive(Debug, Clone, Copy, PartialEq, Eq, Structural)]
pub struct MakepadTools {
    pub makepad: bool,
    pub gen_ui: bool,
}

/// The toolchain of the framework a project builds on.
#[derive(Debug, Clone, Copy, PartialEq, Eq, Structural)]
pub enum UnderlayerTools {
    Makepad(MakepadTools),
}

impl UnderlayerTools {
    /// Whether Makepad's sources were found.
    pub fn makepad_is_ok(&self) -> (b: bool)
        ensures
            b == (match *self {
                UnderlayerTools::Makepad(t) => t.makepad,
            }),
    {
        match self {
            UnderlayerTools::Makepad(t) => t.makepad,
        }
    }
}

/// Which tools were found.
#[derive(Debug, Clone, Copy, PartialEq, Eq, Structural)]
pub struct Tools {
    pub basic: BasicTools,
    pub underlayer: UnderlayerTools,
}

impl Tools {
    /// Whether everything a project needs was found: the three basic tools
    /// and the framework's sources.
    pub fn is_ok(&self) -> (b: bool)
        ensures
            b == (self.basic.rustc && self.basic.cargo && self.basic.git && match self.underlayer {
                UnderlayerTools::Makepad(t) => t.makepad && t.gen_ui,
            }),
    {
        let basic = self.basic.rustc && self.basic.cargo && self.basic.git;
        match self.underlayer {
            UnderlayerTools::Makepad(t) => basic && t.makepad && t.gen_ui,
        }
    }
}

/// The `[dependencies]` line that names the source at `path` for `name`:
/// `name = "path"`.
pub open spec fn dependency_line(name: Seq<char>, path: Seq<char>) -> Seq<char> {
    name + " = \""@ + path + "\""@
}

/// `name = "path"`.
pub fn dependency_text(name: &str, path: &str) -> (s: String)
    ensures
        s@ == dependency_line(name@, path@),
{
    let mut s = name.to_string();
    s.append(" = \"");
    s.append(path);
    s.append("\"");
    s
}

/// A dependency of `chain/env.toml`, as `ract check` reports it: where the
/// entry is a string naming a path, not empty, that makes a dependency line
/// `gen_utils` reads and where a directory was found (`dir_found`), that
/// line; otherwise nothing.
pub fn dependency_found(name: &str, entry: &TomlStr, dir_found: bool) -> (r: Option<String>)
    ensures
        r is Some <==> (entry matches TomlStr::Found(path) && path@.len() > 0
            && rust_dependence_parses(dependency_line(name@, path@)) && dir_found),
        r matches Some(line) ==> (entry matches TomlStr::Found(path) && line@ == dependency_line(
            name@,
            path@,
        )),
{
    match entry {
        TomlStr::Found(path) => {
            if path.as_str().is_empty() {
                None
            } else {
                let line = dependency_text(name, path.as_str());
                if parses_as_dependence(line.as_str()) && dir_found {
                    Some(line)
                } else {
                    None
                }
            }
        },
        _ => None,
    }
}

/// The dependency line that `chain/env.toml` (its text is `content`)
/// gives for `name`, where it can be used: the entry is a string naming a
/// path, not empty, whose line `gen_utils` reads.  Whether its directory
/// exists is left to the disk.
pub open spec fn usable_line(content: Seq<char>, name: Seq<char>) -> Option<Seq<char>> {
    match toml_str_at(content, "dependencies"@, name) {
        Some(Some(path)) => if path.len() > 0 && rust_dependence_parses(dependency_line(name, path)) {
            Some(dependency_line(name, path))
        } else {
            None
        },
        _ => None,
    }
}

/// Whether `chain/env.toml` can be looked into: it is TOML, and it has the
/// entries `dependencies.makepad-widgets` and `dependencies.gen_components`
/// (where it does not, the lookup fails loudly).
pub open spec fn chain_env_readable(content: Seq<char>) -> bool {
    &&& toml_parses(content)
    &&& toml_str_at(content, "dependencies"@, "makepad-widgets"@) is Some
    &&& toml_str_at(content, "dependencies"@, "gen_components"@) is Some
}

/// A line as the spec functions write it.
pub open spec fn line_view(l: Option<String>) -> Option<Seq<char>> {
    match l {
        Some(s) => Some(s@),
        None => None,
    }
}

/// What `ract check` reports of the Makepad sources that `chain/env.toml`
/// (its text is `content`) points to, given whether a directory was found
/// at the `makepad-widgets` path (`widgets_dir`) and at the
/// `gen_components` path (`gen_dir`): each source is reported, with its
/// dependency line, exactly where its own entry is usable and its own
/// directory was found; neither report depends on the other source.
pub fn makepad_sources(content: &str, widgets_dir: bool, gen_dir: bool) -> (r: (Option<String>, Option<String>))
    requires
        chain_env_readable(content@),
    ensures
        line_view(r.0) == (if widgets_dir {
            usable_line(content@, "makepad-widgets"@)
        } else {
            None
        }),
        line_view(r.1) == (if gen_dir {
            usable_line(content@, "gen_components"@)
        } else {
            None
        }),
{
    let makepad = match toml_get_str(content, "dependencies", "makepad-widgets") {
        Ok(entry) => dependency_found("makepad-widgets", &entry, widgets_dir),
        Err(_) => None,
    };
    let gen_ui = match toml_get_str(content, "dependencies", "gen_components") {
        Ok(entry) => dependency_found("gen_components", &entry, gen_dir),
        Err(_) => None,
    };
    (makepad, gen_ui)
}

/// Whether a directory is found at the path that `content` gives for the
/// dependency `name`; no look at the disk where there is no such path.
fn probe_dir(content: &str, name: &str) -> bool {
    match toml_get_str(content, "dependencies", name) {
        Ok(TomlStr::Found(path)) => dir_found(path.as_str()),
        _ => false,
    }
}

/// The Makepad sources that `chain/env.toml` (its text is `content`) points
/// to: a look at the disk for each source's own directory, then
/// `makepad_sources`.  Which directories exist is the disk's to say; each
/// source reported is reported with its usable dependency line.
pub fn check_makepad(content: &str) -> (r: (Option<String>, Option<String>))
    requires
        chain_env_readable(content@),
    ensures
        match r.0 {
            Some(line) => usable_line(content@, "makepad-widgets"@) == Some(line@),
            None => true,
        },
        usable_line(content@, "makepad-widgets"@) is None ==> r.0 is None,
        match r.1 {
            Some(line) => usable_line(content@, "gen_components"@) == Some(line@),
            None => true,
        },
        usable_line(content@, "gen_components"@) is None ==> r.1 is None,
{
    let widgets_dir = probe_dir(content, "makepad-widgets");
    let gen_dir = probe_dir(content, "gen_components");
    makepad_sources(content, widgets_dir, gen_dir)
}

/// `check_makepad` where `chain/env.toml` can be looked into; `None` where
/// it cannot (it is not TOML, or an entry is missing).
pub fn try_check_makepad(content: &str) -> (r: Option<(Option<String>, Option<String>)>)
    ensures
        r is Some <==> chain_env_readable(content@),
        r matches Some(found) ==> {
            &&& match found.0 {
                Some(line) => usable_line(content@, "makepad-widgets"@) == Some(line@),
                None => true,
            }
            &&& usable_line(content@, "makepad-widgets"@) is None ==> found.0 is None
            &&& match found.1 {
                Some(line) => usable_line(content@, "gen_components"@) == Some(line@),
                None => true,
            }
            &&& usable_line(content@, "gen_components"@) is None ==> found.1 is None
        },
{
    if chain_env_ok(content) {
        Some(check_makepad(content))
    } else {
        None
    }
}

/// Whether `chain/env.toml` (its text is `content`) can be looked into.
pub fn chain_env_ok(content: &str) -> (b: bool)
    ensures
        b == chain_env_readable(content@),
{
    let makepad = toml_get_str(content, "dependencies", "makepad-widgets");
    let gen_ui = toml_get_str(content, "dependencies", "gen_components");
    match (makepad, gen_ui) {
        (Ok(TomlStr::Missing), _) | (_, Ok(TomlStr::Missing)) | (Err(_), _) | (_, Err(_)) => false,
        _ => true,
    }
}

/// The path that `chain/env.toml` (its text is `content`) gives for the
/// dependency `name`: the string `dependencies.name`, where there is one.
pub fn dependency_path(content: &str, name: &str) -> (r: Option<String>)
    ensures
        r is Some <==> (toml_parses(content@) && toml_str_at(content@, "dependencies"@, name@) matches Some(
            Some(_),
        )),
        r matches Some(p) ==> toml_str_at(content@, "dependencies"@, name@) == Some(Some(p@)),
{
    match toml_get_str(content, "dependencies", name) {
        Ok(TomlStr::Found(p)) => Some(p),
        _ => None,
    }
}

/// What `ract check` says of one Makepad source.
#[derive(Debug, Clone, PartialEq, Eq)]
pub enum DependencyReport {
    /// found: its dependency line
    Ready(String),
    /// not found: its name
    NotFound(String),
}

/// The report on the Makepad sources found by `check_makepad`:
/// `makepad-widgets` first, then `gen_components`.
pub fn makepad_report(found: (Option<String>, Option<String>)) -> (r: Vec<DependencyReport>)
    ensures
        r@.len() == 2,
        match found.0 {
            Some(line) => r@[0] == DependencyReport::Ready(line),
            None => r@[0] matches DependencyReport::NotFound(name) && name@ == "makepad-widgets"@,
        },
        match found.1 {
            Some(line) => r@[1] == DependencyReport::Ready(line),
            None => r@[1] matches DependencyReport::NotFound(name) && name@ == "gen_components"@,
        },
{
    let (makepad, gen_ui) = found;
    let first = match makepad {
        Some(line) => DependencyReport::Ready(line),
        None => DependencyReport::NotFound("makepad-widgets".to_string()),
    };
    let second = match gen_ui {
        Some(line) => DependencyReport::Ready(line),
        None => DependencyReport::NotFound("gen_components".to_string()),
    };
    vec![first, second]
}

/// The tools found on this machine, given the text of `chain/env.toml`:
/// `rustc`, `cargo` and `git` on the search path, and the Makepad sources
/// that file points to (as `check_makepad` finds them).
pub fn current_states(chain_env: &str) -> (t: Tools)
    requires
        chain_env_readable(chain_env@),
    ensures
        match t.underlayer {
            UnderlayerTools::Makepad(m) => {
                &&& m.makepad ==> usable_line(chain_env@, "makepad-widgets"@) is Some
                &&& m.gen_ui ==> usable_line(chain_env@, "gen_components"@) is Some
            },
        },
{
    let rustc = tool_found("rustc");
    let cargo = tool_found("cargo");
    let git = tool_found("git");
    let found = check_makepad(chain_env);
    tools_from(rustc, cargo, git, &found)
}

/// The tools as found: whether `rustc`, `cargo` and `git` are on the search
/// path, and which Makepad sources `check_makepad` found.
pub fn tools_from(rustc: bool, cargo: bool, git: bool, found: &(Option<String>, Option<String>)) -> (t: Tools)
    ensures
        t == (Tools {
            basic: BasicTools { rustc, cargo, git },
            underlayer: UnderlayerTools::Makepad(
                MakepadTools { makepad: found.0 is Some, gen_ui: found.1 is Some },
            ),
        }),
{
    Tools {
        basic: BasicTools { rustc, cargo, git },
        underlayer: UnderlayerTools::Makepad(
            MakepadTools { makepad: found.0.is_some(), gen_ui: found.1.is_some() },
        ),
    }
}

/// `current_states` where `chain/env.toml` can be looked into; `None` where
/// it cannot (it is not TOML, or an entry is missing).
pub fn try_current_states(chain_env: &str) -> (t: Option<Tools>)
    ensures
        t is Some <==> chain_env_readable(chain_env@),
        t matches Some(tools) ==> (match tools.underlayer {
            UnderlayerTools::Makepad(m) => {
                &&& m.makepad ==> usable_line(chain_env@, "makepad-widgets"@) is Some
                &&& m.gen_ui ==> usable_line(chain_env@, "gen_components"@) is Some
            },
        }),
{
    if chain_env_ok(chain_env) {
        Some(current_states(chain_env))
    } else {
        None
    }
}

} // verus!
