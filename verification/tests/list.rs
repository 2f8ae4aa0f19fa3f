use ract::app::list::KV;

#[test]
fn kv_line_when_selected() {
    let kv = KV::new("name".to_string(), "John".to_string()).selected(true);
    assert_eq!(kv.spans(), vec!["➤", " ", "name", " » ", "John"]);
}

#[test]
fn kv_line_hides_icon_when_not_selected() {
    let kv = KV::new("name".to_string(), "John".to_string());
    assert!(!kv.selected);
    assert_eq!(kv.spans(), vec!["\r", " ", "name", " » ", "John"]);
}

#[test]
fn kv_custom_icon() {
    let kv = KV::new("k".to_string(), "v".to_string()).icon("*").selected(true);
    assert_eq!(kv.spans()[0], "*");
}
