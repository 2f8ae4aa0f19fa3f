use ract::app::runner::{run, AppStep, Dialog, Plain};
use ract::cli::command::create::CreateArgs;
use ract::cli::command::update::UpdateArgs;
use ract::cli::command::Commands;
use ract::cli::Cli;
use ract::service::command::wasm::WasmArgs;

#[test]
fn dialogs_run_then_give_the_screen_back() {
    assert_eq!(run(&Commands::Check, true), vec![AppStep::Dialog(Dialog::Check), AppStep::Destroy]);
    assert_eq!(
        run(&Commands::Wasm(WasmArgs { project: None }), true),
        vec![AppStep::Dialog(Dialog::Wasm), AppStep::Destroy]
    );
    assert_eq!(run(&Commands::Uninstall, true), vec![AppStep::Dialog(Dialog::Uninstall), AppStep::Destroy]);
}

#[test]
fn install_gives_the_screen_back_before_installing() {
    assert_eq!(
        run(&Commands::Install, true),
        vec![AppStep::Dialog(Dialog::Install), AppStep::Destroy, AppStep::FollowUp]
    );
}

#[test]
fn plain_commands_run_without_screen() {
    assert_eq!(run(&Commands::Pkg, false), vec![AppStep::Plain(Plain::Pkg)]);
    assert_eq!(run(&Commands::Add { name: "http".to_string() }, false), vec![AppStep::Plain(Plain::Add)]);
    assert_eq!(run(&Commands::Update(UpdateArgs::default()), false), vec![AppStep::Plain(Plain::Update)]);
    assert_eq!(run(&Commands::Create(CreateArgs::default()), false), vec![AppStep::Plain(Plain::Create)]);
    assert_eq!(run(&Commands::Run, false), vec![AppStep::Plain(Plain::Run)]);
}

#[test]
fn mismatched_commands_do_nothing() {
    assert_eq!(run(&Commands::Pkg, true), vec![AppStep::Destroy]);
    assert_eq!(run(&Commands::Check, false), vec![]);
    let cli = Cli { commands: Commands::Init };
    assert_eq!(run(&cli.commands, true), vec![AppStep::Dialog(Dialog::Init), AppStep::Destroy]);
}
