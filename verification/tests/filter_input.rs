use systemd_manager_tui::filter_input::{FilterInput, InputMode};

fn editor_with(text: &str) -> FilterInput {
    let mut f = FilterInput::new();
    for c in text.chars() {
        f.enter_char(c);
    }
    f
}

#[test]
fn typing_inserts_at_the_cursor() {
    let mut f = editor_with("ngnx");
    assert_eq!(f.text(), "ngnx");
    assert_eq!(f.character_index, 4);
    f.move_cursor_left();
    f.move_cursor_left();
    f.enter_char('i');
    assert_eq!(f.text(), "nginx");
    assert_eq!(f.character_index, 3);
}

#[test]
fn backspace_deletes_left_of_the_cursor() {
    let mut f = editor_with("abc");
    f.delete_char();
    assert_eq!(f.text(), "ab");
    f.move_cursor_left();
    f.move_cursor_left();
    f.delete_char(); // cursor at 0: nothing to delete
    assert_eq!(f.text(), "ab");
    assert_eq!(f.character_index, 0);
}

#[test]
fn delete_to_start_and_from_cursor() {
    let mut f = editor_with("hello world");
    f.move_cursor_left();
    f.move_cursor_left();
    f.move_cursor_left();
    f.delete_to_start();
    assert_eq!(f.text(), "rld");
    assert_eq!(f.character_index, 0);

    let mut g = editor_with("hello world");
    g.move_cursor_left();
    g.move_cursor_left();
    g.move_cursor_left();
    g.delete_from_cursor();
    assert_eq!(g.text(), "hello wo");
}

#[test]
fn word_wise_movement_and_deletion() {
    let mut f = editor_with("one two  three");
    f.delete_prev_word();
    assert_eq!(f.text(), "one two  ");
    f.delete_prev_word();
    assert_eq!(f.text(), "one ");
    f.move_cursor_prev_word();
    assert_eq!(f.character_index, 0);
    f.move_cursor_next_word();
    assert_eq!(f.character_index, 4);
}

#[test]
fn cursor_is_clamped_into_the_text() {
    let f = editor_with("abcd");
    assert_eq!(f.clamp_cursor(2), 2);
    assert_eq!(f.clamp_cursor(99), 4);
}

#[test]
fn input_mode_starts_normal() {
    let f = FilterInput::new();
    assert!(matches!(f.input_mode, InputMode::Normal));
}
