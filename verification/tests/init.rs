use ract::app::key::Key;
use ract::app::state::{BaseRunState, ComponentState};
use ract::app::timeline::TimelineState;
use ract::cli::command::init::{InitCmd, InitLogs, InitState, InitTask};
use ract::entry::Language;
use ract::log::LogLevel;
use std::time::Duration;

#[test]
fn init_writes_env_then_chain() {
    let mut cmd = InitCmd::new(Language::En);
    assert_eq!(cmd.step(), InitTask::Nothing);
    assert_eq!(cmd.cost.env_state, TimelineState::Running);
    assert_eq!(cmd.step(), InitTask::CreateEnvFile);
    cmd.finish(InitTask::CreateEnvFile, Ok(()), Duration::from_millis(3));
    assert_eq!(cmd.env_progress(), 100);
    assert_eq!(cmd.cost.env_state, TimelineState::Success);
    assert_eq!(cmd.cost.env, Duration::from_millis(3));
    assert!(matches!(cmd.state, ComponentState::Run(InitState::CreateChain)));
    assert_eq!(cmd.cost.chain_state, TimelineState::Running);
    assert_eq!(cmd.step(), InitTask::CreateChain);
    cmd.finish(InitTask::CreateChain, Ok(()), Duration::from_millis(5));
    assert_eq!(cmd.chain_progress(), 100);
    assert_eq!(cmd.cost.chain_state, TimelineState::Success);
    assert!(cmd.state.is_pause());
    assert_eq!(
        cmd.logs,
        vec![
            (LogLevel::Info, InitLogs::Init),
            (LogLevel::Success, InitLogs::EnvSuccess),
            (LogLevel::Success, InitLogs::ChainSuccess),
            (LogLevel::Info, InitLogs::Complete),
        ]
    );
}

#[test]
fn init_failure_stops_at_96() {
    let mut cmd = InitCmd::new(Language::Zh);
    cmd.step();
    assert_eq!(cmd.step(), InitTask::CreateEnvFile);
    cmd.finish(InitTask::CreateEnvFile, Err("denied".to_string()), Duration::ZERO);
    assert_eq!(cmd.env_progress(), 96);
    assert_eq!(cmd.cost.env_state, TimelineState::Failed);
    assert!(matches!(cmd.state, ComponentState::Run(InitState::CreateEnvFile)));
    assert_eq!(cmd.step(), InitTask::Nothing);
    assert!(matches!(cmd.state, ComponentState::Run(InitState::CreateEnvFile)));
    assert_eq!(cmd.logs.last(), Some(&(LogLevel::Error, InitLogs::EnvFailed("denied".to_string()))));
    assert_eq!(cmd.logs.len(), 2);
    assert_eq!(cmd.cost.chain_state, TimelineState::UnStart);
    cmd.handle_key(Key::Char('x'));
    assert!(!cmd.state.is_quit());
    cmd.handle_key(Key::Esc);
    assert!(cmd.state.is_quit());
}

#[test]
fn init_chain_failure_keeps_the_step() {
    let mut cmd = InitCmd::new(Language::En);
    cmd.step();
    cmd.step();
    cmd.finish(InitTask::CreateEnvFile, Ok(()), Duration::ZERO);
    assert_eq!(cmd.step(), InitTask::CreateChain);
    cmd.finish(InitTask::CreateChain, Err("no space".to_string()), Duration::ZERO);
    assert_eq!(cmd.chain_progress(), 96);
    assert_eq!(cmd.cost.chain_state, TimelineState::Failed);
    assert!(matches!(cmd.state, ComponentState::Run(InitState::CreateChain)));
    assert_eq!(cmd.logs.last(), Some(&(LogLevel::Error, InitLogs::ChainFailed("no space".to_string()))));
}

#[test]
fn init_env_success_logs_once() {
    let mut cmd = InitCmd::new(Language::En);
    cmd.step();
    cmd.step();
    let before = cmd.logs.len();
    cmd.finish(InitTask::CreateEnvFile, Ok(()), Duration::ZERO);
    assert_eq!(cmd.logs.len(), before + 1);
    assert_eq!(cmd.logs.last(), Some(&(LogLevel::Success, InitLogs::EnvSuccess)));
}

#[test]
fn start_runs_the_default_phase() {
    assert_eq!(InitState::default(), InitState::CreateEnvFile);
    let mut s: ComponentState<InitState> = ComponentState::Start;
    s.next();
    assert!(matches!(s, ComponentState::Run(p) if p == InitState::default()));
    let mut b: ComponentState<BaseRunState> = ComponentState::default();
    b.next();
    assert!(matches!(b, ComponentState::Run(BaseRunState::Running)));
    b.next();
    assert!(b.is_pause());
    b.next();
    assert!(b.is_quit());
}
