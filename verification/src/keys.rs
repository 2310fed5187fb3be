//! Key presses, as the terminal reports them.
use vstd::prelude::*;

verus! {

#[derive(Debug, Clone, Copy, PartialEq, Eq, Structural)]
pub enum KeyCode {
    Char(char),
    F(u8),
    Enter,
    Esc,
    Tab,
    BackTab,
    Up,
    Down,
    Left,
    Right,
    Home,
    End,
    Backspace,
    /// Any key this client has no use for.
    Other,
}

#[derive(Debug, Clone, Copy, PartialEq, Eq, Structural)]
pub struct KeyModifiers {
    pub control: bool,
    pub shift: bool,
    pub alt: bool,
}

impl KeyModifiers {
    pub fn none() -> (m: Self)
        ensures
            !m.control && !m.shift && !m.alt,
    {
        KeyModifiers { control: false, shift: false, alt: false }
    }

    pub fn control() -> (m: Self)
        ensures
            m.control && !m.shift && !m.alt,
    {
        KeyModifiers { control: true, shift: false, alt: false }
    }

    pub fn shift() -> (m: Self)
        ensures
            !m.control && m.shift && !m.alt,
    {
        KeyModifiers { control: false, shift: true, alt: false }
    }
}

/// A key press with the modifiers held down.
#[derive(Debug, Clone, Copy, PartialEq, Eq, Structural)]
pub struct KeyEvent {
    pub code: KeyCode,
    pub modifiers: KeyModifiers,
}

impl KeyEvent {
    pub fn new(code: KeyCode, modifiers: KeyModifiers) -> (k: Self)
        ensures
            k.code == code,
            k.modifiers == modifiers,
    {
        KeyEvent { code, modifiers }
    }
}

} // verus!
