//! Key presses as the screens and widgets read them.

use vstd::prelude::*;

verus! {

/// The key that was pressed.
#[derive(Debug, Clone, Copy, PartialEq, Eq, Structural)]
pub enum KeyCode {
    Char(char),
    Backspace,
    Enter,
    Esc,
    Tab,
    BackTab,
    Up,
    Down,
    Left,
    Right,
    Delete,
    Other,
}

/// The modifier keys held during a key press.
#[derive(Debug, Clone, Copy, PartialEq, Eq, Structural)]
pub struct KeyModifiers {
    pub control: bool,
    pub alt: bool,
    pub shift: bool,
}

impl KeyModifiers {
    pub fn none() -> (m: KeyModifiers)
        ensures
            !m.control && !m.alt && !m.shift,
    {
        KeyModifiers { control: false, alt: false, shift: false }
    }

    pub fn alt() -> (m: KeyModifiers)
        ensures
            !m.control && m.alt && !m.shift,
    {
        KeyModifiers { control: false, alt: true, shift: false }
    }

    pub fn control() -> (m: KeyModifiers)
        ensures
            m.control && !m.alt && !m.shift,
    {
        KeyModifiers { control: true, alt: false, shift: false }
    }
}

/// One key press: a key and its modifiers.
#[derive(Debug, Clone, Copy, PartialEq, Eq, Structural)]
pub struct KeyEvent {
    pub code: KeyCode,
    pub modifiers: KeyModifiers,
}

impl KeyEvent {
    pub fn new(code: KeyCode, modifiers: KeyModifiers) -> (k: KeyEvent)
        ensures
            k.code == code,
            k.modifiers == modifiers,
    {
        KeyEvent { code, modifiers }
    }

    /// A press of `code` with no modifier held.
    pub fn from_code(code: KeyCode) -> (k: KeyEvent)
        ensures
            k.code == code,
            !k.modifiers.control && !k.modifiers.alt && !k.modifiers.shift,
    {
        KeyEvent { code, modifiers: KeyModifiers::none() }
    }
}


impl From<KeyCode> for KeyEvent {
    /// A press of `code` with no modifier held.
    fn from(code: KeyCode) -> (k: KeyEvent) {
        KeyEvent::from_code(code)
    }
}

impl vstd::std_specs::convert::FromSpecImpl<KeyCode> for KeyEvent {
    open spec fn obeys_from_spec() -> bool {
        true
    }

    open spec fn from_spec(code: KeyCode) -> KeyEvent {
        KeyEvent {
            code,
            modifiers: KeyModifiers { control: false, alt: false, shift: false },
        }
    }
}

} // verus!
