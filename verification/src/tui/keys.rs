//! Key presses, as the application sees them.

use vstd::prelude::*;

verus! {

/// Which key was pressed.
#[derive(Debug, Clone, Copy, PartialEq, Eq, Structural)]
pub enum KeyCode {
    Char(char),
    Enter,
    Esc,
    Backspace,
    Tab,
    Up,
    Down,
    Left,
    Right,
    /// Any other key (function keys, paging, ...).
    Other,
}

/// A key press: the key and whether Control was held.
#[derive(Debug, Clone, Copy, PartialEq, Eq, Structural)]
pub struct Key {
    pub code: KeyCode,
    pub ctrl: bool,
}

impl Key {
    /// A plain key press.
    pub fn new(code: KeyCode) -> (k: Key)
        ensures
            k.code == code,
            !k.ctrl,
    {
        Key { code, ctrl: false }
    }

    /// A key pressed with Control held.
    pub fn with_ctrl(code: KeyCode) -> (k: Key)
        ensures
            k.code == code,
            k.ctrl,
    {
        Key { code, ctrl: true }
    }

    /// The key is the character `c` (whatever the modifiers).
    pub open spec fn is_char(self, c: char) -> bool {
        self.code == KeyCode::Char(c)
    }

    /// The key is Control-C.
    pub open spec fn is_ctrl_c(self) -> bool {
        self.code == KeyCode::Char('c') && self.ctrl
    }
}

/// A quit signal: `q`, or Control-C.
pub open spec fn spec_is_quit(key: Key) -> bool {
    key.is_char('q') || key.is_ctrl_c()
}

/// Whether this key press is a quit signal (`q` or Control-C).
pub fn is_quit(key: &Key) -> (r: bool)
    ensures
        r == spec_is_quit(*key),
{
    match key.code {
        KeyCode::Char(c) => c == 'q' || (c == 'c' && key.ctrl),
        _ => false,
    }
}

} // verus!
