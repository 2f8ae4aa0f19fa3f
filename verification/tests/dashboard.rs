use ract::app::dashboard::Dashboard;
use ract::entry::Language;
use ract::log::LogType;
use std::time::Duration;

#[test]
fn dashboard_defaults() {
    let d = Dashboard::new(Language::Zh);
    assert_eq!(d.title, "Ract Dashboard");
    assert_eq!(d.ty, LogType::Unknown);
    assert!(d.cost.is_none());
}

#[test]
fn dashboard_height_takes_the_taller_column() {
    let mut d = Dashboard::new(Language::En);
    assert_eq!(d.height(3, 0), 5 + 6);
    assert_eq!(d.height(10, 2), 10 + 6 + 2);
    d.ty = LogType::Check;
    assert_eq!(d.height(3, 0), 7 + 6);
    d.cost = Some(Duration::from_secs(1));
    assert_eq!(d.height(3, 1), 9 + 6 + 1);
}
