//! The order in which a command's dialogs and work run.
use vstd::prelude::*;

use crate::cli::command::Commands;
use crate::service::command::wasm::WasmArgs;

verus! {

/// The full-screen dialogs.
#[derive(Debug, Clone, Copy, PartialEq, Eq, Structural)]
pub enum Dialog {
    Init,
    Check,
    Config,
    Uninstall,
    Studio,
    Wasm,
    Install,
}

/// The commands that run as questions and answers, without a full screen.
#[derive(Debug, Clone, Copy, PartialEq, Eq, Structural)]
pub enum Plain {
    Update,
    Pkg,
    Create,
    Run,
    Add,
}

/// A step of running a command.
#[derive(Debug, Clone, Copy, PartialEq, Eq, Structural)]
pub enum AppStep {
    /// run a dialog until it quits
    Dialog(Dialog),
    /// give the terminal back (leave the full screen)
    Destroy,
    /// install what the install dialog selected, outside the full screen
    FollowUp,
    /// run a question-and-answer command
    Plain(Plain),
}

/// The steps that run `cmd`.  With a full screen, a dialog runs and the
/// screen is given back after it, except that after the install dialog the
/// screen is given back first and the selected installs follow; a command
/// without a dialog only gives the screen back.  Without a full screen,
/// only the question-and-answer commands run.
pub open spec fn run_steps(cmd: Commands, with_terminal: bool) -> Seq<AppStep> {
    if with_terminal {
        match cmd {
            Commands::Init => seq![AppStep::Dialog(Dialog::Init), AppStep::Destroy],
            Commands::Check => seq![AppStep::Dialog(Dialog::Check), AppStep::Destroy],
            Commands::Config => seq![AppStep::Dialog(Dialog::Config), AppStep::Destroy],
            Commands::Uninstall => seq![AppStep::Dialog(Dialog::Uninstall), AppStep::Destroy],
            Commands::Studio => seq![AppStep::Dialog(Dialog::Studio), AppStep::Destroy],
            Commands::Wasm(_) => seq![AppStep::Dialog(Dialog::Wasm), AppStep::Destroy],
            Commands::Install => seq![
                AppStep::Dialog(Dialog::Install),
                AppStep::Destroy,
                AppStep::FollowUp,
            ],
            _ => seq![AppStep::Destroy],
        }
    } else {
        match cmd {
            Commands::Update(_) => seq![AppStep::Plain(Plain::Update)],
            Commands::Pkg => seq![AppStep::Plain(Plain::Pkg)],
            Commands::Create(_) => seq![AppStep::Plain(Plain::Create)],
            Commands::Run => seq![AppStep::Plain(Plain::Run)],
            Commands::Add { .. } => seq![AppStep::Plain(Plain::Add)],
            _ => seq![],
        }
    }
}

/// Whatever the command, a full screen is given back exactly once, and
/// after any dialog that ran on it.
pub proof fn lemma_screen_given_back(cmd: Commands)
    ensures
        run_steps(cmd, true).filter(|s: AppStep| s == AppStep::Destroy).len() == 1,
        forall|i: int, j: int|
            0 <= i < j < run_steps(cmd, true).len() && run_steps(cmd, true)[j] == AppStep::Destroy
                ==> run_steps(cmd, true)[i] is Dialog,
        !run_steps(cmd, false).contains(AppStep::Destroy),
{
    let steps = run_steps(cmd, true);
    reveal_with_fuel(Seq::filter, 4);
    assert(steps.filter(|s: AppStep| s == AppStep::Destroy).len() == 1) by {
        if steps.len() == 1 {
            assert(steps.drop_last() =~= Seq::<AppStep>::empty());
        } else if steps.len() == 2 {
            assert(steps.drop_last().drop_last() =~= Seq::<AppStep>::empty());
        } else {
            assert(steps.drop_last().drop_last().drop_last() =~= Seq::<AppStep>::empty());
        }
    }
    let plain = run_steps(cmd, false);
    assert forall|i: int| 0 <= i < plain.len() implies plain[i] != AppStep::Destroy by {}
}

/// Each command that has a dialog opens its own dialog first: `init` the
/// init dialog, `check` the check dialog, `config` the config dialog,
/// `uninstall` the uninstall dialog, `studio` the studio dialog, `wasm`
/// the wasm dialog and `install` the install dialog.  No two commands open
/// the same dialog, and no command opens a dialog without a full screen.
pub proof fn lemma_command_opens_own_dialog(a: Commands, b: Commands, w: WasmArgs)
    ensures
        run_steps(Commands::Init, true)[0] == AppStep::Dialog(Dialog::Init),
        run_steps(Commands::Check, true)[0] == AppStep::Dialog(Dialog::Check),
        run_steps(Commands::Config, true)[0] == AppStep::Dialog(Dialog::Config),
        run_steps(Commands::Uninstall, true)[0] == AppStep::Dialog(Dialog::Uninstall),
        run_steps(Commands::Studio, true)[0] == AppStep::Dialog(Dialog::Studio),
        run_steps(Commands::Wasm(w), true)[0] == AppStep::Dialog(Dialog::Wasm),
        run_steps(Commands::Install, true)[0] == AppStep::Dialog(Dialog::Install),
        run_steps(a, true)[0] is Dialog && run_steps(a, true)[0] == run_steps(b, true)[0] ==> (a == b
            || (a is Wasm && b is Wasm)),
        forall|i: int| 0 <= i < run_steps(a, false).len() ==> !(run_steps(a, false)[i] is Dialog),
{
}

/// The steps that run `cmd`, as `run_steps` says.
pub fn run(cmd: &Commands, with_terminal: bool) -> (steps: Vec<AppStep>)
    ensures
        steps@ == run_steps(*cmd, with_terminal),
{
    if with_terminal {
        let dialog = match cmd {
            Commands::Init => Some(Dialog::Init),
            Commands::Check => Some(Dialog::Check),
            Commands::Config => Some(Dialog::Config),
            Commands::Uninstall => Some(Dialog::Uninstall),
            Commands::Studio => Some(Dialog::Studio),
            Commands::Wasm(_) => Some(Dialog::Wasm),
            Commands::Install => Some(Dialog::Install),
            _ => None,
        };
        let mut steps: Vec<AppStep> = Vec::new();
        match dialog {
            Some(d) => {
                steps.push(AppStep::Dialog(d));
                steps.push(AppStep::Destroy);
                if d == Dialog::Install {
                    steps.push(AppStep::FollowUp);
                }
            },
            None => {
                steps.push(AppStep::Destroy);
            },
        }
        assert(steps@ =~= run_steps(*cmd, with_terminal));
        steps
    } else {
        let plain = match cmd {
            Commands::Update(_) => Some(Plain::Update),
            Commands::Pkg => Some(Plain::Pkg),
            Commands::Create(_) => Some(Plain::Create),
            Commands::Run => Some(Plain::Run),
            Commands::Add { .. } => Some(Plain::Add),
            _ => None,
        };
        let mut steps: Vec<AppStep> = Vec::new();
        if let Some(p) = plain {
            steps.push(AppStep::Plain(p));
        }
        assert(steps@ =~= run_steps(*cmd, with_terminal));
        steps
    }
}

} // verus!
