use vstd::prelude::*;

verus! {

/// One keystroke as the parser sees it.
#[derive(Debug, Clone, Copy, PartialEq, Eq, Hash, Structural)]
pub enum Key {
    /// A printable character, e.g. 'a', 'D', '3', '$'.
    Char(char),
    /// A character typed with Control held, e.g. `Key::Ctrl('r')`.
    Ctrl(char),
    Esc,
    Enter,
    Backspace,
    Up,
    Down,
    Left,
    Right,
}

} // verus!
