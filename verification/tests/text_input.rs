use tino::keys::{EditKey, KeyCode, ALT, CONTROL, NO_MODIFIERS, SHIFT};
use tino::text_input::TextInputState;

fn typed(text: &str) -> TextInputState {
    let mut input = TextInputState::new();
    for c in text.chars() {
        input.handle_key(EditKey::Char(c), NO_MODIFIERS);
    }
    input
}

#[test]
fn a_new_buffer_is_empty() {
    let input = TextInputState::new();
    assert_eq!(input.value(), "");
    assert_eq!(input.cursor_position(), 0);
    assert_eq!(input.input().value(), "");
}

#[test]
fn typed_characters_go_in_at_the_cursor() {
    let mut input = typed("helo");
    assert_eq!(input.value(), "helo");
    assert_eq!(input.cursor_position(), 4);
    input.handle_key(EditKey::Left, NO_MODIFIERS);
    assert_eq!(input.cursor_position(), 3);
    input.handle_key(EditKey::Char('l'), NO_MODIFIERS);
    assert_eq!(input.value(), "hello");
    assert_eq!(input.cursor_position(), 4);
}

#[test]
fn shift_and_altgr_write_the_character_too() {
    let mut input = TextInputState::new();
    input.handle_key(EditKey::Char('A'), SHIFT);
    input.handle_key(EditKey::Char('@'), CONTROL + ALT);
    assert_eq!(input.value(), "A@");
    assert_eq!(input.cursor_position(), 2);
}

#[test]
fn home_and_end_move_the_cursor_to_the_ends() {
    let mut input = typed("note");
    input.handle_key(EditKey::Home, NO_MODIFIERS);
    assert_eq!(input.cursor_position(), 0);
    assert_eq!(input.value(), "note");
    input.handle_key(EditKey::Char('a'), NO_MODIFIERS);
    assert_eq!(input.value(), "anote");
    assert_eq!(input.cursor_position(), 1);
    input.handle_key(EditKey::End, NO_MODIFIERS);
    assert_eq!(input.cursor_position(), 5);
    assert_eq!(input.value(), "anote");
}

#[test]
fn backspace_and_delete_remove_a_character() {
    let mut input = typed("abc");
    input.handle_key(EditKey::Backspace, NO_MODIFIERS);
    assert_eq!(input.value(), "ab");
    assert_eq!(input.cursor_position(), 2);
    input.handle_key(EditKey::Home, NO_MODIFIERS);
    input.handle_key(EditKey::Delete, NO_MODIFIERS);
    assert_eq!(input.value(), "b");
    assert_eq!(input.cursor_position(), 0);
    input.handle_key(EditKey::Right, NO_MODIFIERS);
    assert_eq!(input.cursor_position(), 1);
    input.handle_key(EditKey::Right, NO_MODIFIERS);
    assert_eq!(input.cursor_position(), 1);
}

#[test]
fn the_cursor_stays_within_the_text() {
    let mut input = typed("añ😀");
    assert_eq!(input.cursor_position(), 3);
    assert_eq!(input.value().chars().count(), 3);
    for _ in 0..5 {
        input.handle_key(EditKey::Left, NO_MODIFIERS);
        assert!(input.cursor_position() <= input.value().chars().count());
    }
    assert_eq!(input.cursor_position(), 0);
    for _ in 0..5 {
        input.handle_key(EditKey::Backspace, NO_MODIFIERS);
        input.handle_key(EditKey::Right, NO_MODIFIERS);
        assert!(input.cursor_position() <= input.value().chars().count());
    }
}

#[test]
fn taking_the_value_empties_the_buffer() {
    let mut input = typed("hello");
    assert_eq!(input.value_and_reset(), "hello");
    assert_eq!(input.value(), "");
    assert_eq!(input.cursor_position(), 0);
    assert_eq!(input.value_and_reset(), "");
}

#[test]
fn control_with_a_character_writes_nothing() {
    let mut input = typed("ab");
    input.handle_key(EditKey::Char('x'), CONTROL);
    assert_eq!(input.value(), "ab");
    input.handle_key(EditKey::Char('a'), CONTROL);
    assert_eq!(input.cursor_position(), 0);
    assert_eq!(input.value(), "ab");
}

#[test]
fn only_editing_keys_reach_the_editor() {
    assert_eq!(KeyCode::Char('x').edit_key(), Some(EditKey::Char('x')));
    assert_eq!(KeyCode::Backspace.edit_key(), Some(EditKey::Backspace));
    assert_eq!(KeyCode::Delete.edit_key(), Some(EditKey::Delete));
    assert_eq!(KeyCode::Left.edit_key(), Some(EditKey::Left));
    assert_eq!(KeyCode::Right.edit_key(), Some(EditKey::Right));
    assert_eq!(KeyCode::Home.edit_key(), Some(EditKey::Home));
    assert_eq!(KeyCode::End.edit_key(), Some(EditKey::End));
    assert_eq!(KeyCode::Up.edit_key(), None);
    assert_eq!(KeyCode::Down.edit_key(), None);
    assert_eq!(KeyCode::Enter.edit_key(), None);
    assert_eq!(KeyCode::Esc.edit_key(), None);
    assert_eq!(KeyCode::Tab.edit_key(), None);
    assert_eq!(KeyCode::Other.edit_key(), None);
}
