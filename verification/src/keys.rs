//! Keyboard input as plain values.

use vstd::prelude::*;

verus! {

/// No modifier key is held.
pub const NO_MODIFIERS: u8 = 0;

/// The bit of the shift key in a set of modifiers.
pub const SHIFT: u8 = 1;

/// The bit of the control key in a set of modifiers.
pub const CONTROL: u8 = 2;

/// The bit of the alt key in a set of modifiers.
pub const ALT: u8 = 4;

/// The key that was pressed, as far as the application tells keys apart.
#[derive(Clone, Copy, Debug, PartialEq, Eq, Structural)]
pub enum KeyCode {
    Backspace,
    Enter,
    Left,
    Right,
    Up,
    Down,
    Home,
    End,
    Tab,
    Delete,
    Char(char),
    Esc,
    /// Any other key.
    Other,
}

/// A key together with the modifier keys held with it, one bit each.
#[derive(Clone, Copy, Debug, PartialEq, Eq, Structural)]
pub struct KeyInput {
    pub code: KeyCode,
    pub modifiers: u8,
}

/// Whether a key went down, is held, or came up.
#[derive(Clone, Copy, Debug, PartialEq, Eq, Structural)]
pub enum KeyEventKind {
    Press,
    Repeat,
    Release,
}

/// What the terminal reports: a key, or something that the application
/// does not act on (the mouse, a new size, the focus, pasted text).
#[derive(Clone, Copy, Debug, PartialEq, Eq, Structural)]
pub enum InputEvent {
    Key { key: KeyInput, kind: KeyEventKind },
    Other,
}

/// A key that means something to the line editor of the name field.
#[derive(Clone, Copy, Debug, PartialEq, Eq, Structural)]
pub enum EditKey {
    Char(char),
    Backspace,
    Delete,
    Left,
    Right,
    Home,
    End,
}

impl KeyCode {
    /// The key as the line editor knows it, if it knows it.
    pub open spec fn edit_key_of(self) -> Option<EditKey> {
        match self {
            KeyCode::Char(c) => Some(EditKey::Char(c)),
            KeyCode::Backspace => Some(EditKey::Backspace),
            KeyCode::Delete => Some(EditKey::Delete),
            KeyCode::Left => Some(EditKey::Left),
            KeyCode::Right => Some(EditKey::Right),
            KeyCode::Home => Some(EditKey::Home),
            KeyCode::End => Some(EditKey::End),
            _ => None,
        }
    }

    /// The key as the line editor knows it, if it knows it.
    pub fn edit_key(self) -> (key: Option<EditKey>)
        ensures
            key == self.edit_key_of(),
    {
        match self {
            KeyCode::Char(c) => Some(EditKey::Char(c)),
            KeyCode::Backspace => Some(EditKey::Backspace),
            KeyCode::Delete => Some(EditKey::Delete),
            KeyCode::Left => Some(EditKey::Left),
            KeyCode::Right => Some(EditKey::Right),
            KeyCode::Home => Some(EditKey::Home),
            KeyCode::End => Some(EditKey::End),
            _ => None,
        }
    }
}

impl KeyInput {
    /// The key `code` with no modifier held.
    pub fn plain(code: KeyCode) -> (key: KeyInput)
        ensures
            key == (KeyInput { code, modifiers: NO_MODIFIERS }),
    {
        KeyInput { code, modifiers: NO_MODIFIERS }
    }

    /// The character `c` with the control key held.
    pub fn control(c: char) -> (key: KeyInput)
        ensures
            key == (KeyInput { code: KeyCode::Char(c), modifiers: CONTROL }),
    {
        KeyInput { code: KeyCode::Char(c), modifiers: CONTROL }
    }
}

} // verus!
