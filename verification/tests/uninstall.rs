use ract::app::key::Key;
use ract::cli::command::uninstall::{UninstallCmd, UninstallTask};
use ract::entry::Language;

#[test]
fn uninstall_defaults_to_no() {
    let mut cmd = UninstallCmd::new(Language::En);
    assert_eq!(cmd.confirm_index(), 1);
    assert_eq!(cmd.handle_key(Key::Enter), UninstallTask::Nothing);
    assert!(cmd.state.is_quit());
}

#[test]
fn uninstall_yes_asks_to_remove() {
    let mut cmd = UninstallCmd::new(Language::Zh);
    assert_eq!(cmd.handle_key(Key::Down), UninstallTask::Nothing);
    assert_eq!(cmd.confirm_index(), 0);
    assert_eq!(cmd.handle_key(Key::Enter), UninstallTask::Uninstall);
    assert!(!cmd.state.is_quit());
    cmd.finish(false);
    assert!(!cmd.state.is_quit());
    cmd.finish(true);
    assert!(cmd.state.is_quit());
}

#[test]
fn uninstall_up_twice_is_no_again() {
    let mut cmd = UninstallCmd::new(Language::En);
    cmd.handle_key(Key::Up);
    cmd.handle_key(Key::Up);
    assert!(!cmd.selected);
    cmd.handle_key(Key::Char('q'));
    assert!(cmd.state.is_quit());
}
