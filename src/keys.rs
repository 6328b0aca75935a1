//! Keyboard input as the panes and the layout read it.

use vstd::prelude::*;

verus! {

/// Which key was pressed.
#[derive(Clone, Copy, Debug, PartialEq, Eq, Structural)]
pub enum KeyCode {
    Char(char),
    Enter,
    Esc,
    Backspace,
    Delete,
    Left,
    Right,
    Up,
    Down,
    /// Any key that no pane reacts to.
    Other,
}

/// Whether the key went down, auto-repeated, or came up.
#[derive(Clone, Copy, Debug, PartialEq, Eq, Structural)]
pub enum KeyEventKind {
    Press,
    Repeat,
    Release,
}

/// One keyboard event.
#[derive(Clone, Copy, Debug, PartialEq, Eq, Structural)]
pub struct KeyEvent {
    pub code: KeyCode,
    pub shift: bool,
    pub kind: KeyEventKind,
}

impl KeyEvent {
    /// A key press without modifiers.
    pub fn press(code: KeyCode) -> (r: KeyEvent)
        ensures
            r == (KeyEvent { code, shift: false, kind: KeyEventKind::Press }),
    {
        KeyEvent { code, shift: false, kind: KeyEventKind::Press }
    }

    pub open spec fn is_press(self) -> bool {
        self.kind == KeyEventKind::Press
    }
}

} // verus!
