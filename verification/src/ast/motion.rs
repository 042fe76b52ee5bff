use vstd::prelude::*;

verus! {

/// A cursor motion.
#[derive(Debug, Clone, Copy, PartialEq, Eq, Structural)]
pub enum Motion {
    Left,
    Right,
    Up,
    Down,
    WordForward,
    WordBackward,
    WordEndForward,
    WordEndBackward,
    StartOfLine,
    FirstNonBlank,
    EndOfLine,
    GotoLine,
    MatchPairs,
    FindForward(char),
    FindBackward(char),
    TillForward(char),
    TillBackward(char),
}

} // verus!
