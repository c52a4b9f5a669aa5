use prm::app::input::{
    clamp_cursor, cursor_index, delete_at_cursor, delete_before_cursor, insert_at_cursor,
    move_cursor_left, move_cursor_right,
};

#[test]
fn insert_moves_the_cursor_past_the_new_character() {
    let mut value = String::from("ac");
    let mut cursor = 1usize;
    insert_at_cursor(&mut value, &mut cursor, 'b');
    assert_eq!(value, "abc");
    assert_eq!(cursor, 2);
    insert_at_cursor(&mut value, &mut cursor, 'é');
    assert_eq!(value, "abéc");
    assert_eq!(cursor, 4);
}

#[test]
fn cursor_inside_a_character_moves_back_to_its_start() {
    // 'é' takes two bytes; offset 2 lies inside it.
    assert_eq!(clamp_cursor("aéb", 2), 1);
    assert_eq!(cursor_index("aéb", 2), 1);
    assert_eq!(clamp_cursor("aéb", 99), 4);
    assert_eq!(cursor_index("aéb", 99), 3);
}

#[test]
fn backspace_and_delete_remove_one_character() {
    let mut value = String::from("aéb");
    let mut cursor = 3usize;
    delete_before_cursor(&mut value, &mut cursor);
    assert_eq!(value, "ab");
    assert_eq!(cursor, 1);
    delete_at_cursor(&mut value, cursor);
    assert_eq!(value, "a");
    let mut at_start = 0usize;
    delete_before_cursor(&mut value, &mut at_start);
    assert_eq!(value, "a");
    assert_eq!(at_start, 0);
}

#[test]
fn left_and_right_steps_undo_each_other() {
    let value = "xé😀y";
    let mut cursor = 1usize;
    move_cursor_right(value, &mut cursor);
    assert_eq!(cursor, 3);
    move_cursor_right(value, &mut cursor);
    assert_eq!(cursor, 7);
    move_cursor_left(value, &mut cursor);
    assert_eq!(cursor, 3);
    move_cursor_left(value, &mut cursor);
    assert_eq!(cursor, 1);
}

#[test]
fn cursor_stays_at_the_ends() {
    let mut cursor = 0usize;
    move_cursor_left("ab", &mut cursor);
    assert_eq!(cursor, 0);
    let mut end = 2usize;
    move_cursor_right("ab", &mut end);
    assert_eq!(end, 2);
}
