use ract::app::key::Key;
use ract::app::state::ComponentState;
use ract::cli::command::studio::{
    Current, LogPlace, SelectPlace, StudioAction, StudioCmd, StudioLogs, StudioState, StudioTask,
};
use ract::entry::{CheckItem, Language};

fn ready(name: &str) -> CheckItem {
    CheckItem { name: name.to_string(), path: None, state: true }
}

#[test]
fn studio_default_run() {
    let mut cmd = StudioCmd::new(Language::En);
    assert_eq!(cmd.step(), StudioTask::Describe);
    assert_eq!(cmd.step(), StudioTask::Check);
    cmd.finish_check(Ok(vec![ready("makepad"), ready("gen_ui")]));
    assert!(matches!(cmd.state, ComponentState::Run(StudioState::Select)));
    assert_eq!(cmd.heights(10, 16), (7, 4));
    assert_eq!(cmd.handle_key(Key::Enter, ""), StudioAction::Log(StudioLogs::Gui));
    assert_eq!(cmd.place.select, SelectPlace::Default);
    assert!(cmd.uses_default());
    assert!(matches!(cmd.state, ComponentState::Run(StudioState::Running)));
    assert_eq!(cmd.step(), StudioTask::Launch);
    assert_eq!(cmd.launched(Ok(())), StudioAction::Nothing);
    assert_eq!(cmd.step(), StudioTask::Follow);
    assert_eq!(cmd.stopped(Ok(true)), StudioAction::Log(StudioLogs::Stop));
    assert!(!cmd.is_running);
    assert!(cmd.state.is_pause());
}

#[test]
fn studio_custom_path() {
    let mut cmd = StudioCmd::new(Language::Zh);
    cmd.step();
    cmd.step();
    cmd.finish_check(Ok(vec![]));
    cmd.handle_key(Key::Down, "");
    assert!(!cmd.is_default);
    assert_eq!(cmd.handle_key(Key::Enter, ""), StudioAction::Nothing);
    assert_eq!(cmd.place.select, SelectPlace::Custom);
    assert!(cmd.handle_other_event());
    assert_eq!(cmd.handle_key(Key::Char('q'), ""), StudioAction::TextareaInput);
    assert!(!cmd.state.is_quit());
    assert_eq!(
        cmd.handle_key(Key::Enter, "/opt/studio"),
        StudioAction::Log(StudioLogs::Custom("/opt/studio".to_string()))
    );
    assert_eq!(cmd.value, "/opt/studio");
    assert_eq!(cmd.place.select, SelectPlace::Selected);
    assert!(!cmd.uses_default());
    let _ = cmd.step();
    assert_eq!(cmd.value, "/opt/studio");
}

#[test]
fn studio_check_failure_pauses() {
    let mut cmd = StudioCmd::new(Language::En);
    cmd.step();
    cmd.finish_check(Ok(vec![ready("a"), CheckItem { name: "b".to_string(), path: None, state: false }]));
    assert!(cmd.state.is_pause());
    let mut other = StudioCmd::new(Language::En);
    other.finish_check(Err("no chain".to_string()));
    assert!(other.state.is_pause());
}

#[test]
fn studio_focus_cycles_and_logs_scroll() {
    let mut cmd = StudioCmd::new(Language::En);
    cmd.handle_key(Key::Char('l'), "");
    assert_eq!((cmd.place.current, cmd.place.log), (Current::Log, LogPlace::Ract));
    cmd.follow_log(20);
    assert_eq!(cmd.scroll_y, 8);
    cmd.handle_key(Key::Up, "");
    assert_eq!(cmd.scroll_y, 7);
    cmd.follow_log(30);
    assert_eq!(cmd.scroll_y, 7);
    cmd.handle_key(Key::Char('l'), "");
    assert_eq!((cmd.place.current, cmd.place.log), (Current::Log, LogPlace::Studio));
    assert_eq!(cmd.scroll_y, -1);
    cmd.follow_log(5);
    assert_eq!(cmd.scroll_y, 0);
    cmd.handle_key(Key::Char('l'), "");
    assert_eq!((cmd.place.current, cmd.place.log), (Current::Select, LogPlace::Ract));
    cmd.handle_key(Key::Char('q'), "");
    assert!(cmd.state.is_quit());
}

#[test]
fn studio_launch_failure_pauses_with_reason() {
    let mut cmd = StudioCmd::new(Language::En);
    assert_eq!(cmd.launched(Err("missing".to_string())), StudioAction::Log(StudioLogs::Error("missing".to_string())));
    assert!(cmd.state.is_pause());
}

#[test]
fn studio_focus_comes_back_after_three_presses() {
    let mut cmd = StudioCmd::new(Language::En);
    let start = (cmd.place.current, cmd.place.log);
    for _ in 0..3 {
        cmd.handle_key(Key::Char('l'), "");
    }
    assert_eq!((cmd.place.current, cmd.place.log), start);
}
