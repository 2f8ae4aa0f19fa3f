use ract::app::timeline::{Size, Timeline, TimelineState};
use ract::entry::Language;
use std::time::Duration;

#[test]
fn timeline_defaults() {
    let t = Timeline::new("check".to_string(), Language::En);
    assert_eq!(t.name, "check");
    assert!(t.description.is_none());
    assert_eq!(t.state, TimelineState::UnStart);
    assert_eq!(t.progress, 0);
    assert_eq!(t.cost, Duration::default());
    assert_eq!(t.height, 0);
}

#[test]
fn timeline_height_with_description() {
    let t = Timeline::new("env".to_string(), Language::Zh)
        .description("writing .env".to_string())
        .progress(40)
        .state(TimelineState::Running)
        .draw();
    assert_eq!(t.height, 8);
    assert_eq!(t.rows, vec![1, 1, 2]);
    assert_eq!(t.progress, 40);
    assert_eq!(t.state, TimelineState::Running);
    assert_eq!(t.cost_icon(), "⏱");
}

#[test]
fn timeline_height_without_description() {
    let t = Timeline::new("chain".to_string(), Language::En)
        .cost(Duration::from_millis(1500))
        .progress(100)
        .state(TimelineState::Success)
        .draw();
    assert_eq!(t.height, 4);
    assert_eq!(t.rows, vec![1, 2]);
    assert_eq!(t.cost, Duration::from_millis(1500));
    assert_eq!(t.cost_icon(), "🎉");
    assert!(t.state.is_success());
}

#[test]
fn timeline_state_default_is_unstart() {
    assert_eq!(TimelineState::default(), TimelineState::UnStart);
    assert!(!TimelineState::Failed.is_success());
}

#[test]
fn timeline_layouts() {
    assert_eq!(Timeline::layout(2), vec![Size::Length(2), Size::Length(2)]);
    assert_eq!(Timeline::layout(3), vec![Size::Length(2), Size::Percentage(100), Size::Length(2)]);
    assert_eq!(Timeline::header_layout(), vec![Size::Length(2), Size::Percentage(100)]);
    assert_eq!(Timeline::progress_layout(12), vec![Size::Percentage(76), Size::Length(12)]);
    assert_eq!(Timeline::progress_layout(65536 + 5), vec![Size::Percentage(76), Size::Length(5)]);
}
