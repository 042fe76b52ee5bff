use vstd::prelude::*;
use crate::ast::motion::Motion;
use crate::ast::operator::Operator;
use crate::ast::target::Target;

verus! {

/// The ways of entering Insert mode.
#[derive(Debug, Clone, PartialEq, Eq, Copy, Structural)]
pub enum InsertCommand {
    /// `i`
    Insert,
    /// `a`
    Append,
    /// `I`
    InsertAtLineStart,
    /// `A`
    AppendAtLineEnd,
    /// `o`
    OpenLineBelow,
    /// `O`
    OpenLineAbove,
    /// `gi`
    InsertLast,
}

/// Where a paste goes relative to the cursor.
#[derive(Debug, Clone, PartialEq, Eq, Copy, Structural)]
pub enum PasteDir {
    /// `P`
    Before,
    /// `p`
    After,
}

/// The action of a parsed command.
#[derive(Debug, Clone, PartialEq, Eq)]
pub enum Action {
    Move(Motion),
    Operate(Operator, Target),
    EnterInsert(InsertCommand),
    Insert(String),
    Backspace,
    /// `r{char}`
    Replace(char),
    Paste(PasteDir),
    /// `J`
    JoinLines,
    /// `~`
    ToggleCase,
    MacroRecord(char),
    MacroExecute(char),
    Undo,
    Redo,
    EnterVisual,
    Cancel,
}

} // verus!
