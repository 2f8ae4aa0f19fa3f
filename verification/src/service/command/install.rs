//! What `ract install` installs besides Makepad itself.
use vstd::prelude::*;

use crate::common::same_text;

verus! {

broadcast use vstd::string::group_string_axioms;

/// The extras that can be (re)installed with Makepad.
#[derive(Debug, Clone, Copy, PartialEq, Eq, Structural)]
pub enum InstallOption {
    GenComponents,
    AndroidBuild,
    IosBuild,
    WasmBuild,
    MakepadStudio,
    /// Makepad alone
    Default,
}

/// The option names offered, in order.
pub open spec fn option_names() -> Seq<Seq<char>> {
    seq![
        "gen_components"@,
        "android_build"@,
        "ios_build"@,
        "wasm_build"@,
        "makepad_studio"@,
        "default"@,
    ]
}

/// The options, in the order of `option_names`.
pub open spec fn option_list() -> Seq<InstallOption> {
    seq![
        InstallOption::GenComponents,
        InstallOption::AndroidBuild,
        InstallOption::IosBuild,
        InstallOption::WasmBuild,
        InstallOption::MakepadStudio,
        InstallOption::Default,
    ]
}

/// The option a chosen name stands for; an unknown name is `❌ Invalid option!`.
pub fn install_option(name: &str) -> (r: Result<InstallOption, String>)
    ensures
        forall|i: int| 0 <= i < 6 && name@ == #[trigger] option_names()[i] ==> r == Ok::<
            InstallOption,
            String,
        >(option_list()[i]),
        (forall|i: int| 0 <= i < 6 ==> name@ != #[trigger] option_names()[i]) ==> (r matches Err(m)
            && m@ == "❌ Invalid option!"@),
{
    proof {
        reveal_strlit("gen_components");
        reveal_strlit("android_build");
        reveal_strlit("ios_build");
        reveal_strlit("wasm_build");
        reveal_strlit("makepad_studio");
        reveal_strlit("default");
        assert("gen_components"@.len() == 14 && "gen_components"@[0] == 'g');
        assert("android_build"@.len() == 13 && "android_build"@[0] == 'a');
        assert("ios_build"@.len() == 9 && "ios_build"@[0] == 'i');
        assert("wasm_build"@.len() == 10 && "wasm_build"@[0] == 'w');
        assert("makepad_studio"@.len() == 14 && "makepad_studio"@[0] == 'm');
        assert(option_names()[0] == "gen_components"@);
        assert(option_names()[1] == "android_build"@);
        assert(option_names()[2] == "ios_build"@);
        assert(option_names()[3] == "wasm_build"@);
        assert(option_names()[4] == "makepad_studio"@);
        assert(option_names()[5] == "default"@);
        assert("default"@.len() == 7 && "default"@[0] == 'd');
    }
    if same_text(name, "gen_components") {
        Ok(InstallOption::GenComponents)
    } else if same_text(name, "android_build") {
        Ok(InstallOption::AndroidBuild)
    } else if same_text(name, "ios_build") {
        Ok(InstallOption::IosBuild)
    } else if same_text(name, "wasm_build") {
        Ok(InstallOption::WasmBuild)
    } else if same_text(name, "makepad_studio") {
        Ok(InstallOption::MakepadStudio)
    } else if same_text(name, "default") {
        Ok(InstallOption::Default)
    } else {
        Err("❌ Invalid option!".to_string())
    }
}

/// What happens to Makepad itself before the extras are installed.
#[derive(Debug, Clone, Copy, PartialEq, Eq, Structural)]
pub enum MakepadUpdate {
    /// Makepad and `cargo makepad` are there: ask whether to update
    AskUpdate,
    /// Makepad is there but `cargo makepad` is not: stop
    CargoMakepadMissing,
    /// Makepad is not there: clone it and install `cargo makepad`
    Install,
}

/// Whether to update, stop or install, given whether Makepad's sources
/// were found and whether `cargo makepad` answers.
pub fn update_makepad(installed: bool, cargo_makepad: bool) -> (u: MakepadUpdate)
    ensures
        u == (if !installed {
            MakepadUpdate::Install
        } else if cargo_makepad {
            MakepadUpdate::AskUpdate
        } else {
            MakepadUpdate::CargoMakepadMissing
        }),
{
    if installed {
        if cargo_makepad {
            MakepadUpdate::AskUpdate
        } else {
            MakepadUpdate::CargoMakepadMissing
        }
    } else {
        MakepadUpdate::Install
    }
}

} // verus!
