use ract::app::key::Key;
use ract::app::state::ComponentState;
use ract::cli::command::check::{CheckCmd, CheckState, CheckTask};
use ract::entry::{CheckItem, Checks, Language, Underlayer};

#[test]
fn check_all_runs_both_checks() {
    let mut cmd = CheckCmd::new(Language::En);
    assert_eq!(cmd.step(), CheckTask::Describe);
    assert!(cmd.is_running_select());
    cmd.handle_key(Key::Down);
    cmd.handle_key(Key::Down);
    cmd.handle_key(Key::Down);
    assert_eq!(cmd.selected, 2);
    cmd.handle_key(Key::Enter);
    assert_eq!(cmd.option, Checks::All(Underlayer::Makepad));
    assert_eq!(cmd.step(), CheckTask::Basic { complete: false });
    assert_eq!(cmd.step(), CheckTask::Underlayer(Some(Underlayer::Makepad)));
    assert!(cmd.state.is_pause());
    assert_eq!(cmd.step(), CheckTask::Nothing);
}

#[test]
fn check_basic_pauses_after_basic() {
    let mut cmd = CheckCmd::new(Language::Zh);
    cmd.step();
    cmd.handle_key(Key::Up);
    assert_eq!(cmd.selected, 0);
    cmd.handle_key(Key::Enter);
    assert_eq!(cmd.option, Checks::Basic);
    assert_eq!(cmd.step(), CheckTask::Basic { complete: true });
    assert!(cmd.state.is_pause());
}

#[test]
fn check_underlayer_skips_basic() {
    let mut cmd = CheckCmd::new(Language::En);
    cmd.step();
    cmd.handle_key(Key::Down);
    cmd.handle_key(Key::Enter);
    assert_eq!(cmd.option, Checks::Underlayer(Underlayer::Makepad));
    assert_eq!(cmd.step(), CheckTask::Nothing);
    assert!(matches!(cmd.state, ComponentState::Run(CheckState::Underlayer)));
    assert_eq!(cmd.step(), CheckTask::Underlayer(Some(Underlayer::Makepad)));
}

#[test]
fn check_q_quits_and_records_keep_order() {
    let mut cmd = CheckCmd::new(Language::En);
    cmd.record(vec![CheckItem { name: "rustc".to_string(), path: None, state: true }]);
    cmd.record(vec![CheckItem { name: "git".to_string(), path: Some("/usr/bin/git".to_string()), state: true }]);
    assert_eq!(cmd.items.len(), 2);
    assert_eq!(cmd.items[1].name, "git");
    cmd.handle_key(Key::Char('q'));
    assert!(cmd.state.is_quit());
}
