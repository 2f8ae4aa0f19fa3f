use ract::app::key::Key;
use ract::app::state::ComponentState;
use ract::app::timeline::TimelineState;
use ract::cli::command::install::{Check, CheckState, InstallCmd, InstallLog, InstallLogs, InstallState, InstallTask};
use std::time::Duration;
use ract::entry::{CheckItem, InstallTool, Language};

fn item(name: &str, ready: bool) -> CheckItem {
    CheckItem { name: name.to_string(), path: None, state: ready }
}

#[test]
fn install_checks_then_selects() {
    let mut cmd = InstallCmd::new(Language::En);
    assert_eq!(cmd.step(), InstallTask::Describe);
    for (step, ready) in [
        (CheckState::Rustc, true),
        (CheckState::Cargo, true),
        (CheckState::Git, false),
    ] {
        assert_eq!(cmd.step(), InstallTask::Check(step));
        cmd.finish_check(step, Ok(vec![item("tool", ready)]), Duration::from_millis(2));
    }
    assert_eq!(cmd.cost, Some(Duration::from_millis(6)));
    assert_eq!(cmd.step(), InstallTask::Check(CheckState::Underlayer));
    cmd.finish_check(
        CheckState::Underlayer,
        Ok(vec![item("makepad", true), item("gen_components", false)]),
        Duration::from_millis(4),
    );
    assert_eq!(cmd.cost, Some(Duration::from_millis(10)));
    assert_eq!(cmd.log.len(), 5);
    assert!(matches!(&cmd.log[2], InstallLog::Checked(i) if !i.state));
    assert!(matches!(&cmd.log[3], InstallLog::Checked(i) if i.name == "makepad" && i.state));
    assert!(matches!(&cmd.log[4], InstallLog::Checked(i) if i.name == "gen_components" && !i.state));
    assert_eq!(cmd.check.progress, 60);
    assert_eq!(cmd.check.items.len(), 3);
    assert_eq!(cmd.check.state, TimelineState::Success);
    assert!(matches!(cmd.state, ComponentState::Run(InstallState::Select)));
    assert_eq!(
        cmd.check.to_log(),
        InstallLogs::Check { current: "makepad".to_string(), num: 3, total: 5 }
    );
}

#[test]
fn install_failed_check_adds_nothing() {
    let mut cmd = InstallCmd::new(Language::En);
    cmd.step();
    cmd.finish_check(CheckState::Rustc, Err("no toolchain".to_string()), Duration::from_millis(1));
    assert_eq!(cmd.check.progress, 0);
    assert_eq!(cmd.cost, Some(Duration::from_millis(1)));
    assert_eq!(cmd.log.len(), 1);
    assert!(matches!(&cmd.log[0], InstallLog::Failed(e) if e == "no toolchain"));
    assert!(matches!(cmd.state, ComponentState::Run(InstallState::Check(CheckState::Cargo))));
    assert_eq!(cmd.check.state, TimelineState::UnStart);
}

#[test]
fn install_selection_toggles() {
    let mut cmd = InstallCmd::new(Language::Zh);
    assert_eq!(cmd.selecteds, vec![0]);
    cmd.handle_key(Key::Down);
    cmd.handle_key(Key::Down);
    cmd.handle_key(Key::Down);
    assert_eq!(cmd.selected, 2);
    cmd.handle_key(Key::Char(' '));
    assert_eq!(cmd.selecteds, vec![0, 2]);
    cmd.handle_key(Key::Up);
    cmd.handle_key(Key::Up);
    cmd.handle_key(Key::Up);
    assert_eq!(cmd.selected, 0);
    cmd.handle_key(Key::Char(' '));
    assert_eq!(cmd.selecteds, vec![2]);
    cmd.handle_key(Key::Char(' '));
    assert_eq!(cmd.selecteds, vec![2, 0]);
    assert_eq!(cmd.handle_result(), vec![InstallTool::Makepad, InstallTool::Rust]);
    cmd.handle_key(Key::Enter);
    assert!(cmd.state.is_quit());
}

#[test]
fn install_q_drops_choices() {
    let mut cmd = InstallCmd::new(Language::En);
    cmd.handle_key(Key::Char('q'));
    assert!(cmd.selecteds.is_empty());
    assert!(cmd.state.is_quit());
    assert!(cmd.handle_result().is_empty());
}

#[test]
fn install_log_without_items() {
    assert_eq!(Check::new().to_log(), InstallLogs::Check { current: "-".to_string(), num: 0, total: 5 });
}
