use ract::app::state::{BaseRunState, ComponentState, InputMode};
use ract::cli::command::check::CheckState;

#[test]
fn input_mode_toggles_back() {
    let mut m = InputMode::default();
    assert!(m.is_normal());
    m.next();
    assert!(m.is_edit());
    m.next();
    assert!(m.is_normal());
}

#[test]
fn component_runs_through_its_phases_then_quits() {
    let mut c: ComponentState<CheckState> = ComponentState::default();
    assert!(c.is_start());
    c.next();
    assert!(matches!(c, ComponentState::Run(CheckState::Select)));
    c.next();
    assert!(matches!(c, ComponentState::Run(CheckState::Basic)));
    c.next();
    assert!(matches!(c, ComponentState::Run(CheckState::Underlayer)));
    assert!(c.is_run_end());
    c.next();
    assert!(c.is_pause());
    c.next();
    assert!(c.is_quit());
    c.next();
    assert!(c.is_quit());
}

#[test]
fn component_to_run_end_and_quit() {
    let mut c: ComponentState<CheckState> = ComponentState::Run(CheckState::Select);
    c.to_run_end();
    assert!(matches!(c, ComponentState::Run(CheckState::Underlayer)));
    let mut s: ComponentState<CheckState> = ComponentState::Start;
    s.to_run_end();
    assert!(s.is_start());
    s.to_pause();
    assert!(s.is_pause());
    s.quit();
    assert!(s.is_quit());
}

#[test]
fn base_run_state_pauses_after_one_step() {
    let mut c: ComponentState<BaseRunState> = ComponentState::Start;
    c.next();
    assert!(c.is_run() && c.is_run_end());
    c.next();
    assert!(c.is_pause());
}

#[test]
fn base_run_quits_in_three_steps() {
    let mut c: ComponentState<BaseRunState> = ComponentState::Start;
    c.next();
    c.next();
    c.next();
    assert!(c.is_quit());
}

#[test]
fn check_component_quits_within_rank_plus_three() {
    // the check phases reach their end in 2 calls, so 5 steps quit
    let mut c: ComponentState<CheckState> = ComponentState::Start;
    for _ in 0..5 {
        c.next();
    }
    assert!(c.is_quit());
}
