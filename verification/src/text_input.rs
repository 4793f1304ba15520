//! The line editor of the name field.
//!
//! Editing is the work of `tui_input::Input`. This module states what the
//! rest of the crate relies on: what the editor holds, that taking the text
//! empties it, and what the editing keys do, as far as a few lines say it.

use crate::keys::{EditKey, ALT, CONTROL, NO_MODIFIERS, SHIFT};
use crossterm::event::{Event, KeyCode, KeyEvent, KeyModifiers};
use tui_input::backend::crossterm::EventHandler;
use tui_input::Input;
use vstd::prelude::*;

verus! {

/// `tui_input::Input`, the line editor. Nothing inside it is seen here;
/// what it holds goes by the names [`input_text`] and [`input_cursor`].
#[verifier::external_type_specification]
#[verifier::external_body]
pub struct ExInput(Input);

/// The text that an `Input` holds, character by character.
pub uninterp spec fn input_text(input: Input) -> Seq<char>;

/// The number of characters of an `Input`'s text that stand before its
/// cursor.
pub uninterp spec fn input_cursor(input: Input) -> nat;

/// Whether a character key held with `modifiers` writes its character:
/// alone, with shift, or with control and alt together.
pub open spec fn writes_character(modifiers: u8) -> bool {
    modifiers == NO_MODIFIERS || modifiers == SHIFT || modifiers == CONTROL + ALT
}

/// Whether `text_after` and `cursor_after` are `text` and `cursor` with the
/// `count` characters before the cursor removed.
pub open spec fn removed_before(
    text: Seq<char>,
    cursor: nat,
    count: nat,
    text_after: Seq<char>,
    cursor_after: nat,
) -> bool {
    &&& count <= cursor <= text.len()
    &&& text_after == text.subrange(0, cursor - count) + text.subrange(
        cursor as int,
        text.len() as int,
    )
    &&& cursor_after == cursor - count
}

/// Whether `text_after` and `cursor_after` are `text` and `cursor` with the
/// `count` characters behind the cursor removed.
pub open spec fn removed_behind(
    text: Seq<char>,
    cursor: nat,
    count: nat,
    text_after: Seq<char>,
    cursor_after: nat,
) -> bool {
    &&& cursor + count <= text.len()
    &&& text_after == text.subrange(0, cursor as int) + text.subrange(
        (cursor + count) as int,
        text.len() as int,
    )
    &&& cursor_after == cursor
}

/// What is known of an edit: of the text and cursor before a key and
/// after it. The cursor is within the text both times. A character that is
/// written goes in at the cursor, which moves behind it. Of the keys pressed
/// alone: `Home` and `End` move the cursor to the start and to the end;
/// `Left` and `Right` move it back and forth by some characters (the editor
/// steps by what a reader takes for one character) and leave the text;
/// `Backspace` removes some characters before the cursor and `Delete` some
/// behind it, none where there is none. Of keys held with other modifiers
/// no more is stated here.
pub open spec fn edited(
    text: Seq<char>,
    cursor: nat,
    key: EditKey,
    modifiers: u8,
    text_after: Seq<char>,
    cursor_after: nat,
) -> bool {
    &&& cursor <= text.len()
    &&& cursor_after <= text_after.len()
    &&& (key matches EditKey::Char(c) ==> (writes_character(modifiers) ==> text_after
        == text.insert(cursor as int, c) && cursor_after == cursor + 1))
    &&& (modifiers == NO_MODIFIERS ==> match key {
        EditKey::Char(_) => true,
        EditKey::Home => text_after == text && cursor_after == 0,
        EditKey::End => text_after == text && cursor_after == text.len(),
        EditKey::Left => text_after == text && cursor_after <= cursor,
        EditKey::Right => text_after == text && cursor <= cursor_after,
        EditKey::Backspace => exists|count: nat| #[trigger]
            removed_before(text, cursor, count, text_after, cursor_after),
        EditKey::Delete => exists|count: nat| #[trigger]
            removed_behind(text, cursor, count, text_after, cursor_after),
    })
}

/// `Input::default` of tui_input: an editor with no text and the cursor at
/// the start.
#[verifier::external_body]
fn input_new() -> (input: Input)
    ensures
        input_text(input) == Seq::<char>::empty(),
        input_cursor(input) == 0,
{
    Input::default()
}

/// `Input::value` of tui_input: the text that the editor holds.
#[verifier::external_body]
fn input_value(input: &Input) -> (value: &str)
    ensures
        value@ == input_text(*input),
{
    input.value()
}

/// `Input::cursor` of tui_input: the number of characters before the
/// cursor, which an `Input` keeps within its text.
#[verifier::external_body]
fn input_cursor_position(input: &Input) -> (cursor: usize)
    ensures
        cursor == input_cursor(*input),
        cursor <= input_text(*input).len(),
{
    input.cursor()
}

/// `Input::value_and_reset` of tui_input: hands out the text and leaves the
/// editor with no text and the cursor at the start.
#[verifier::external_body]
fn input_value_and_reset(input: &mut Input) -> (value: String)
    ensures
        value@ == input_text(*old(input)),
        input_text(*final(input)) == Seq::<char>::empty(),
        input_cursor(*final(input)) == 0,
{
    input.value_and_reset()
}

/// `EventHandler::handle_event` of tui_input's crossterm backend, on the
/// press of `key` with `modifiers`: the backend's table turns the key into a
/// request and `Input::handle` carries it out. Stated of it is [`edited`]:
/// what `Input::handle` shows of the requests that the table gives for a
/// written character and for the six other keys pressed alone.
#[verifier::external_body]
fn input_handle_key(input: &mut Input, key: EditKey, modifiers: u8)
    ensures
        edited(
            input_text(*old(input)),
            input_cursor(*old(input)),
            key,
            modifiers,
            input_text(*final(input)),
            input_cursor(*final(input)),
        ),
{
    let code = match key {
        EditKey::Char(c) => KeyCode::Char(c),
        EditKey::Backspace => KeyCode::Backspace,
        EditKey::Delete => KeyCode::Delete,
        EditKey::Left => KeyCode::Left,
        EditKey::Right => KeyCode::Right,
        EditKey::Home => KeyCode::Home,
        EditKey::End => KeyCode::End,
    };
    let held = KeyModifiers::from_bits_truncate(modifiers);
    input.handle_event(&Event::Key(KeyEvent::new(code, held)));
}

/// The edit buffer of the name field with its cursor.
pub struct TextInputState {
    input: Input,
}

impl TextInputState {
    /// The text in the buffer.
    pub closed spec fn text(&self) -> Seq<char> {
        input_text(self.input)
    }

    /// The number of characters before the cursor.
    pub closed spec fn cursor(&self) -> nat {
        input_cursor(self.input)
    }

    /// An empty buffer.
    pub fn new() -> (state: Self)
        ensures
            state.text() == Seq::<char>::empty(),
            state.cursor() == 0,
    {
        TextInputState { input: input_new() }
    }

    /// The text in the buffer.
    pub fn value(&self) -> (value: &str)
        ensures
            value@ == self.text(),
    {
        input_value(&self.input)
    }

    /// The number of characters before the cursor. It is never more than
    /// the text has.
    pub fn cursor_position(&self) -> (cursor: usize)
        ensures
            cursor == self.cursor(),
            self.cursor() <= self.text().len(),
    {
        input_cursor_position(&self.input)
    }

    /// Hands out the text and empties the buffer.
    pub fn value_and_reset(&mut self) -> (value: String)
        ensures
            value@ == old(self).text(),
            final(self).text() == Seq::<char>::empty(),
            final(self).cursor() == 0,
    {
        input_value_and_reset(&mut self.input)
    }

    /// Lets the editor take the press of `key` with `modifiers`.
    pub fn handle_key(&mut self, key: EditKey, modifiers: u8)
        ensures
            edited(
                old(self).text(),
                old(self).cursor(),
                key,
                modifiers,
                final(self).text(),
                final(self).cursor(),
            ),
    {
        input_handle_key(&mut self.input, key, modifiers)
    }

    /// The editor itself, for the code that draws it.
    pub fn input(&self) -> (input: &Input)
        ensures
            input_text(*input) == self.text(),
            input_cursor(*input) == self.cursor(),
    {
        &self.input
    }
}

} // verus!
