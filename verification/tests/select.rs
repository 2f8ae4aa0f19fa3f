use ract::app::key::Key;
use ract::app::select::{help_line, ComponentExit, Confirm, Select};
use ract::entry::Language;

fn options(n: usize) -> Vec<String> {
    (0..n).map(|i| format!("option {}", i)).collect()
}

#[test]
fn select_wraps_round_the_list() {
    let mut s = Select::new_with_options("Pick", Language::En, &options(3), None);
    assert_eq!(s.selected, 0);
    assert_eq!(s.handle_key(Key::Up), Ok(()));
    assert_eq!(s.selected, 2);
    assert_eq!(s.handle_key(Key::Down), Ok(()));
    assert_eq!(s.selected, 0);
    s.handle_key(Key::Down).unwrap();
    s.handle_key(Key::Down).unwrap();
    s.handle_key(Key::Down).unwrap();
    assert_eq!(s.selected, 0);
}

#[test]
fn select_escape_leaves_and_enter_quits() {
    let mut s = Select::new_with_options("Pick", Language::En, &options(2), None);
    assert_eq!(s.handle_key(Key::Esc), Err(ComponentExit::AppExit));
    assert_eq!(s.handle_key(Key::Char('q')), Err(ComponentExit::AppExit));
    assert!(!s.state.is_quit());
    s.handle_key(Key::Enter).unwrap();
    assert!(s.state.is_quit());
}

#[test]
fn help_lines() {
    assert_eq!(help_line(Language::En), "[ Up/Down: choose, Enter: confirm, Esc/q: quit ]");
    assert_eq!(help_line(Language::Zh), "[ 上/下: 选择, Enter: 确认, Esc/q: 退出 ]");
}

#[test]
fn confirm_offers_yes_and_no() {
    let c = Confirm::new("Sure?", Language::En);
    assert_eq!(c.0.options, vec!["Yes".to_string(), "No".to_string()]);
}

#[test]
fn select_height_counts_wrapped_lines() {
    let s = Select::new_with_options("Pick", Language::En, &options(3), None);
    // the hint is 48 columns wide: one row at 60, two at 40
    assert_eq!(s.height(60), 5);
    assert_eq!(s.height(40), 6);
}

#[test]
fn select_height_uses_display_width() {
    // "你好" is 4 columns wide though it has two characters
    let s = Select::new_with_options("你好", Language::En, &options(1), None)
        .help_msg("ab".to_string());
    assert_eq!(s.height(4), 1 + 2 + 1);
    assert_eq!(s.height(10), 1 + 1 + 1);
}

#[test]
fn select_try_height() {
    let s = Select::new_with_options("Pick", Language::En, &options(3), None);
    assert_eq!(s.try_height(60), Some(5));
    assert_eq!(s.try_height(40), Some(s.height(40)));
    assert_eq!(s.try_height(0), None);
    let m = ract::app::select::MultiSelect::new("Pick".to_string(), Language::En, &options(2), Some("*"));
    assert_eq!(m.try_height(60), Some(4));
    assert_eq!(m.try_height(0), None);
}
