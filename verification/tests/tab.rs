use ract::app::tab::{Direction, Tab};

fn tabs(names: &[&str]) -> Vec<String> {
    names.iter().map(|s| s.to_string()).collect()
}

#[test]
fn tab_column_pads_rows_and_widths() {
    let tab = Tab::new(tabs(&["Env", "Chain"]))
        .direction(Direction::Horizontal)
        .selected(1);
    let cells = tab.layout(4);
    let labels: Vec<&str> = cells.iter().map(|c| c.label.as_str()).collect();
    assert_eq!(labels, vec![" Env     ", "➤Chain   ", "         ", "         "]);
    assert!(cells.iter().all(|c| c.width == 8));
}

#[test]
fn tab_column_keeps_all_tabs_when_area_is_short() {
    let tab = Tab::new(tabs(&["a", "b", "c"])).direction(Direction::Horizontal);
    let cells = tab.layout(1);
    assert_eq!(cells.len(), 3);
    assert_eq!(cells[0].label, "➤a   ");
    assert_eq!(cells[2].label, " c   ");
    assert_eq!(cells[0].width, 4);
}

#[test]
fn tab_column_counts_bytes() {
    let tab = Tab::new(tabs(&["你好"])).direction(Direction::Horizontal);
    let cells = tab.layout(1);
    assert_eq!(cells[0].label, "➤你好   ");
    assert_eq!(cells[0].width, 9);
}

#[test]
fn tab_row_labels_and_widths() {
    let tab = Tab::new(tabs(&["a", "bc"]));
    assert_eq!(tab.direction, Direction::Vertical);
    let cells = tab.layout(10);
    assert_eq!(cells.len(), 2);
    assert_eq!(cells[0].label, "➤a ");
    assert_eq!(cells[0].width, 3);
    assert_eq!(cells[1].label, " bc ");
    assert_eq!(cells[1].width, 4);
}

#[test]
fn tab_no_tabs() {
    let tab = Tab::new(Vec::new());
    assert!(tab.layout(3).is_empty());
    let column = Tab::new(Vec::new()).direction(Direction::Horizontal);
    let cells = column.layout(2);
    assert_eq!(cells.len(), 2);
    assert_eq!(cells[0].label, "➤    ");
    assert_eq!(cells[1].label, "     ");
    assert_eq!(cells[0].width, 4);
}
