use ract::app::key::Key;
use ract::app::state::ComponentState;
use ract::cli::command::wasm::{
    parse_port, PortError, WasmAction, WasmCmd, WasmLaunch, WasmLaunchError, WasmState, WasmTask,
};
use ract::entry::Language;
use ract::service::command::wasm::WasmArgs;

#[test]
fn port_parser_agrees_with_std() {
    for text in ["8010", "1", "+1", "65535", "65536", "99999999", "", "+", "-", "-1", " 80", "8o", "0", "+0"] {
        let ours = parse_port(text);
        let std = text.parse::<u16>().ok().filter(|p| *p != 0).ok_or(());
        assert_eq!(ours.is_ok(), std.is_ok(), "{}", text);
        if let Ok(p) = std {
            assert_eq!(ours, Ok(p));
        }
    }
    assert_eq!(parse_port(""), Err(PortError::Empty));
    assert_eq!(parse_port("8o"), Err(PortError::InvalidDigit));
    assert_eq!(parse_port("65536"), Err(PortError::PosOverflow));
    assert_eq!(parse_port("0"), Err(PortError::Zero));
    assert_eq!(parse_port("00"), Err(PortError::Zero));
}

#[test]
fn wasm_asks_port_then_launches() {
    let mut cmd = WasmCmd::new(None, Language::En);
    assert_eq!(cmd.port, 8010);
    assert_eq!(cmd.step(), WasmTask::Describe);
    assert!(cmd.is_run_port());
    assert_eq!(cmd.main_height(), 4);
    assert_eq!(cmd.handle_key(Key::Char('8'), "8"), WasmAction::TextareaInput);
    assert_eq!(cmd.handle_key(Key::Enter, "80x"), WasmAction::PortRejected(PortError::InvalidDigit));
    assert_eq!(cmd.handle_key(Key::Enter, "0"), WasmAction::PortRejected(PortError::Zero));
    assert_eq!(cmd.port, 8010);
    assert!(cmd.is_run_port());
    assert_eq!(cmd.handle_key(Key::Enter, "9000"), WasmAction::PortAccepted(9000));
    assert_eq!(cmd.port, 9000);
    assert!(matches!(cmd.state, ComponentState::Run(WasmState::Running)));
    assert_eq!(cmd.main_height(), 1);
    assert_eq!(cmd.step(), WasmTask::Launch);
    assert_eq!(cmd.launch_target(true), Ok(WasmLaunch::FromRact));
    assert_eq!(cmd.launch_target(false), Err(WasmLaunchError::NoRactConf));
    cmd.launched(Some(42));
    assert_eq!(cmd.step(), WasmTask::Follow);
    assert_eq!(cmd.poll_timeout(true), 1000);
    assert_eq!(cmd.poll_timeout(false), 20);
    assert_eq!(cmd.handle_key(Key::Char('q'), ""), WasmAction::StopProcess);
    cmd.finish_stop(Some(true));
    assert!(cmd.state.is_pause());
    assert!(!cmd.is_running);
    assert_eq!(cmd.pid, None);
}

#[test]
fn wasm_named_project_and_failed_launch() {
    let mut cmd = WasmCmd::new(Some("demo".to_string()), Language::Zh);
    assert_eq!(cmd.launch_target(false), Ok(WasmLaunch::Project("demo".to_string())));
    cmd.step();
    cmd.handle_key(Key::Enter, "8010");
    cmd.launched(None);
    assert!(cmd.state.is_pause());
    assert_eq!(cmd.poll_timeout(true), 20);
}

#[test]
fn wasm_log_scrolling() {
    let mut cmd = WasmCmd::new(None, Language::En);
    cmd.step();
    cmd.handle_key(Key::Enter, "8010");
    cmd.follow_log(20);
    assert_eq!(cmd.scroll_y, 10);
    cmd.follow_log(5);
    assert_eq!(cmd.scroll_y, 10);
    cmd.handle_key(Key::Up, "");
    assert_eq!(cmd.scroll_y, 9);
    assert!(cmd.control);
    cmd.follow_log(40);
    assert_eq!(cmd.scroll_y, 9);
    cmd.handle_key(Key::Down, "");
    assert_eq!(cmd.scroll_y, 10);
    assert_eq!(cmd.handle_key(Key::Char('q'), ""), WasmAction::Nothing);
    assert!(cmd.state.is_quit());
}

#[test]
fn wasm_dialog_from_arguments() {
    let cmd = WasmCmd::from((WasmArgs { project: Some("demo".to_string()) }, Language::Zh));
    assert_eq!(cmd.project, Some("demo".to_string()));
    assert_eq!(cmd.port, 8010);
    assert_eq!(cmd.lang, Language::Zh);
    assert!(cmd.state.is_start());
}
