//! Plain values that the commands work with: the display language, the
//! toolchain checks offered, the config files, and the tools one can install.
use vstd::prelude::*;

verus! {

/// The language of the messages.
#[derive(Debug, Clone, Copy, PartialEq, Eq, Structural)]
pub enum Language {
    Zh,
    En,
}

impl Default for Language {
    fn default() -> (r: Self)
        ensures
            r == Language::En,
    {
        Language::En
    }
}

/// The underlayer framework whose toolchain can be checked (current support: Makepad).
#[derive(Debug, Clone, Copy, PartialEq, Eq, Structural)]
pub enum Underlayer {
    Makepad,
}

/// What the check command checks: the basic tools (rustc, cargo, git), an
/// underlayer's toolchain, or both.
#[derive(Debug, Clone, Copy, PartialEq, Eq, Structural)]
pub enum Checks {
    Basic,
    Underlayer(Underlayer),
    All(Underlayer),
}

impl Default for Checks {
    fn default() -> (r: Self)
        ensures
            r == Checks::Basic,
    {
        Checks::Basic
    }
}

impl Checks {
    /// How many options the check dialog offers: Basic, Underlayer, All.
    pub open spec fn option_count_spec() -> nat {
        3
    }

    pub fn option_count() -> (n: usize)
        ensures
            n == Self::option_count_spec(),
    {
        3
    }

    /// The option at `index` of the dialog, in the order Basic, Underlayer, All.
    pub open spec fn option_at(index: int) -> Checks {
        if index == 0 {
            Checks::Basic
        } else if index == 1 {
            Checks::Underlayer(Underlayer::Makepad)
        } else {
            Checks::All(Underlayer::Makepad)
        }
    }

    pub fn from_index(index: usize) -> (c: Checks)
        requires
            index < Self::option_count_spec(),
        ensures
            c == Self::option_at(index as int),
    {
        if index == 0 {
            Checks::Basic
        } else if index == 1 {
            Checks::Underlayer(Underlayer::Makepad)
        } else {
            Checks::All(Underlayer::Makepad)
        }
    }
}

/// The two config files: the `.env` file that points at the chain, and the
/// chain's `env.toml`.
#[derive(Debug, Clone, Copy, PartialEq, Eq, Structural)]
pub enum Configs {
    Env,
    ChainEnvToml,
}

/// The tools the install dialog offers, in its order.
#[derive(Debug, Clone, Copy, PartialEq, Eq, Structural)]
pub enum InstallTool {
    /// rustc and cargo
    Rust,
    Git,
    Makepad,
}

impl InstallTool {
    /// How many tools the install dialog offers.
    pub open spec fn option_count_spec() -> nat {
        3
    }

    pub fn option_count() -> (n: usize)
        ensures
            n == Self::option_count_spec(),
    {
        3
    }

    pub open spec fn option_at(index: int) -> InstallTool {
        if index == 0 {
            InstallTool::Rust
        } else if index == 1 {
            InstallTool::Git
        } else {
            InstallTool::Makepad
        }
    }

    pub fn from_index(index: usize) -> (t: InstallTool)
        requires
            index < Self::option_count_spec(),
        ensures
            t == Self::option_at(index as int),
    {
        if index == 0 {
            InstallTool::Rust
        } else if index == 1 {
            InstallTool::Git
        } else {
            InstallTool::Makepad
        }
    }
}

/// The install dialog lists Rust, Git and Makepad, in that order: the tool
/// chosen at each index is the one listed there, and no two indices give
/// the same tool.
pub proof fn lemma_install_tools_listed()
    ensures
        forall|i: int|
            0 <= i < 3 ==> #[trigger] InstallTool::option_at(i) == seq![
                InstallTool::Rust,
                InstallTool::Git,
                InstallTool::Makepad,
            ][i],
        forall|i: int, j: int|
            0 <= i < 3 && 0 <= j < 3 && #[trigger] InstallTool::option_at(i) == #[trigger] InstallTool::option_at(j)
                ==> i == j,
        InstallTool::option_count_spec() == 3,
{
}

/// The outcome of checking one tool: its name, where it was found, and
/// whether it is ready.
#[derive(Debug, Clone)]
pub struct CheckItem {
    pub name: String,
    pub path: Option<String>,
    pub state: bool,
}

impl CheckItem {
    /// A copy of this outcome, equal to it in every field.
    pub fn duplicate(&self) -> (r: Self)
        ensures
            r == *self,
    {
        let path = match &self.path {
            Some(p) => Some(p.clone()),
            None => None,
        };
        CheckItem { name: self.name.clone(), path, state: self.state }
    }
}

} // verus!
