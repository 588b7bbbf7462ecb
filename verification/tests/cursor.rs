use promptuity::InputCursor;

#[test]
fn typing_and_column_for_narrow_text() {
    let mut cursor = InputCursor::default();
    cursor.insert('f');
    cursor.insert('o');
    cursor.insert('o');
    assert_eq!(cursor.value(), "foo");
    assert_eq!(cursor.cursor(), 3);
    assert_eq!(cursor.col(), 3);

    cursor.move_home();
    cursor.insert('b');
    cursor.insert('a');
    cursor.insert('r');
    cursor.insert(' ');
    assert_eq!(cursor.value(), "bar foo");
    assert_eq!(cursor.cursor(), 4);
    assert_eq!(cursor.col(), 4);
}

#[test]
fn wide_characters_count_two_columns() {
    let mut cursor = InputCursor::default();
    cursor.insert('\u{65e5}');
    cursor.insert('\u{672c}');
    cursor.insert('\u{8a9e}');
    assert_eq!(cursor.cursor(), 3);
    assert_eq!(cursor.col(), 6);
    cursor.delete_left_char();
    assert_eq!(cursor.value(), "\u{65e5}\u{672c}");
    assert_eq!(cursor.cursor(), 2);
    assert_eq!(cursor.col(), 4);
}

#[test]
fn column_and_position_agree_on_single_column_text() {
    let mut cursor = InputCursor::from("abcdef".to_string());
    assert_eq!(cursor.col(), cursor.cursor() as u16);
    cursor.move_left();
    cursor.move_left();
    assert_eq!(cursor.col(), cursor.cursor() as u16);
    cursor.insert('\u{65e5}');
    assert_eq!(cursor.cursor(), 5);
    assert_eq!(cursor.col(), 6);
}

#[test]
fn column_overflowing_its_type_reports_zero() {
    let cursor = InputCursor::from("a".repeat(70000));
    assert_eq!(cursor.cursor(), 70000);
    assert_eq!(cursor.col(), 0);
}

#[test]
fn insert_then_delete_left_restores_text_and_position() {
    let mut cursor = InputCursor::new("bar foo".to_string(), 4).clone();
    cursor.insert('x');
    cursor.delete_left_char();
    assert_eq!(cursor.value(), "bar foo");
    assert_eq!(cursor.cursor(), 4);
}

#[test]
fn delete_left_word_takes_word_and_trailing_spaces() {
    let mut cursor = InputCursor::from("bar foo ".to_string());
    cursor.delete_left_word();
    assert_eq!(cursor.value(), "bar ");
    assert_eq!(cursor.cursor(), 4);
}

#[test]
fn delete_left_word_on_blank_text_clears_to_start() {
    let mut cursor = InputCursor::from("   ".to_string());
    cursor.delete_left_word();
    assert_eq!(cursor.value(), "");
    assert_eq!(cursor.cursor(), 0);
}

#[test]
fn split_around_the_cursor() {
    let mut cursor = InputCursor::from("Hello".to_string());
    cursor.move_left();
    cursor.move_left();
    assert_eq!(
        cursor.split(),
        ("Hel".to_string(), "l".to_string(), "o".to_string())
    );
}

#[test]
fn split_at_end_synthesises_a_space() {
    let cursor = InputCursor::from("Hi".to_string());
    assert_eq!(
        cursor.split(),
        ("Hi".to_string(), " ".to_string(), "".to_string())
    );
}

#[test]
fn movement_clamps_to_bounds() {
    let mut cursor = InputCursor::from("ab".to_string());
    cursor.move_right();
    assert_eq!(cursor.cursor(), 2);
    cursor.move_left();
    cursor.move_left();
    cursor.move_left();
    assert_eq!(cursor.cursor(), 0);
    cursor.move_end();
    assert_eq!(cursor.cursor(), 2);
}

#[test]
fn deletions_at_boundaries_are_no_ops() {
    let mut cursor = InputCursor::from("ab".to_string());
    cursor.delete_right_char();
    assert_eq!(cursor.value(), "ab");
    cursor.move_home();
    cursor.delete_left_char();
    assert_eq!(cursor.value(), "ab");
    cursor.delete_right_char();
    assert_eq!(cursor.value(), "b");
    assert_eq!(cursor.cursor(), 0);
}

#[test]
fn line_deletions() {
    let mut cursor = InputCursor::new("abcdef".to_string(), 3);
    cursor.delete_rest_line();
    assert_eq!(cursor.value(), "abc");
    assert_eq!(cursor.cursor(), 3);
    cursor.delete_line();
    assert_eq!(cursor.value(), "");
    assert_eq!(cursor.cursor(), 0);
}

#[test]
fn blankness_looks_through_whitespace() {
    assert!(InputCursor::default().is_empty());
    assert!(InputCursor::from("  \t ".to_string()).is_empty());
    assert!(!InputCursor::from(" a ".to_string()).is_empty());
}

#[test]
fn set_value_and_set_cursor_clamp() {
    let mut cursor = InputCursor::from("abcdef".to_string());
    cursor.set_value("ab".to_string());
    assert_eq!(cursor.value(), "ab");
    assert_eq!(cursor.cursor(), 2);
    cursor.set_cursor(10);
    assert_eq!(cursor.cursor(), 2);
    cursor.set_cursor(1);
    assert_eq!(cursor.cursor(), 1);
}
