//! Key presses as the browser sees them.

use vstd::prelude::*;

verus! {

/// The key of a key press, as far as the browser tells keys apart.
#[derive(Debug, Clone, Copy, PartialEq, Eq)]
pub enum KeyCode {
    Backspace,
    Enter,
    Left,
    Right,
    Up,
    Down,
    Delete,
    Esc,
    /// A function key, by its number.
    F(u8),
    /// A character key.
    Char(char),
    /// Any other key.
    Other,
}

/// The modifier keys held during a key press: none at all, Control alone, or
/// any other combination.
#[derive(Debug, Clone, Copy, PartialEq, Eq)]
pub enum KeyModifiers {
    /// No modifier key is held.
    Plain,
    /// Control is held and no other modifier key.
    Control,
    /// Any other combination.
    Other,
}

/// One key press.
#[derive(Debug, Clone, Copy, PartialEq, Eq)]
pub struct KeyEvent {
    pub code: KeyCode,
    pub modifiers: KeyModifiers,
}

impl KeyEvent {
    pub fn new(code: KeyCode, modifiers: KeyModifiers) -> (key: Self)
        ensures
            key == (KeyEvent { code, modifiers }),
    {
        KeyEvent { code, modifiers }
    }
}

/// Whether the key press is Control-C.
pub fn is_ctrl_c(key: &KeyEvent) -> (r: bool)
    ensures
        r == (key.code == KeyCode::Char('c') && key.modifiers == KeyModifiers::Control),
{
    match (key.code, key.modifiers) {
        (KeyCode::Char(c), KeyModifiers::Control) => c == 'c',
        _ => false,
    }
}

} // verus!
