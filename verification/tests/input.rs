use ract::app::{Input, InputMode};

#[test]
fn test1() {
    let mut input = Input::new()
        .value("你好!".to_string())
        .mode(InputMode::Edit);

    input.input("123");
    input.delete();
    input.input("赛道");
    input.delete();

    assert_eq!(input.value, "你好!12赛");
    assert_eq!(input.char_index, 6);
}

#[test]
fn input_then_delete_gives_back_the_text() {
    let mut input = Input::new().value("ab".to_string());
    input.move_cursor(-1);
    input.input("x");
    assert_eq!(input.value, "axb");
    assert_eq!(input.char_index, 2);
    input.delete();
    assert_eq!(input.value, "ab");
    assert_eq!(input.char_index, 1);
}

#[test]
fn cursor_moves_stay_in_the_text() {
    let mut input = Input::new().value("héllo".to_string());
    assert_eq!(input.char_index, 5);
    input.move_cursor(10);
    assert_eq!(input.char_index, 5);
    input.move_cursor(-100);
    assert_eq!(input.char_index, 0);
    input.move_cursor(2);
    assert_eq!(input.byte_index(), 3);
    input.move_cursor_end();
    assert_eq!(input.byte_index(), 6);
    assert_eq!(input.byte_length(), 5);
}

#[test]
fn delete_at_start_does_nothing() {
    let mut input = Input::new().value("abc".to_string());
    input.move_cursor(-3);
    input.delete();
    assert_eq!(input.value, "abc");
    assert_eq!(input.char_index, 0);
}

#[test]
fn char_index_builder_only_moves_past_the_end() {
    let input = Input::new().value("abc".to_string()).char_index(1);
    assert_eq!(input.char_index, 3);
    let input = Input::new().value("abc".to_string()).char_index(7);
    assert_eq!(input.char_index, 7);
    let input = Input::new().char_index(4);
    assert_eq!(input.char_index, 0);
}

#[test]
fn reset_empties() {
    let mut input = Input::new().value("abc".to_string()).placeholder("type".to_string());
    input.reset();
    assert_eq!(input.value, "");
    assert_eq!(input.char_index, 0);
    assert_eq!(input.placeholder, "type");
    assert_eq!(input.mode, InputMode::Normal);
}

#[test]
fn deleting_what_was_typed_gives_the_text_back() {
    let mut input = Input::new().value("héllo".to_string());
    input.move_cursor(-3);
    input.input("赛道x");
    assert_eq!(input.value, "hé赛道xllo");
    assert_eq!(input.char_index, 5);
    for _ in 0..3 {
        input.delete();
    }
    assert_eq!(input.value, "héllo");
    assert_eq!(input.char_index, 2);
}
