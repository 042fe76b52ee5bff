use vstd::prelude::*;
use crate::ast::operator::Operator;

verus! {

/// The editing mode of the parser.
#[derive(Debug, Clone, Copy, PartialEq, Eq, Structural)]
pub enum Mode {
    Normal,
    Insert,
    Visual,
    /// An operator was typed and waits for its target.
    OperatorPending(Operator),
}

/// A key that waits for one more character before it means anything.
#[derive(Debug, Clone, Copy, PartialEq, Eq, Structural)]
pub enum PendingAction {
    /// `f`
    FindForward,
    /// `F`
    FindBackward,
    /// `t`
    TillForward,
    /// `T`
    TillBackward,
    /// `i` after an operator
    Inner,
    /// `a` after an operator
    Around,
    /// `"`
    Register,
}

/// What has been collected towards the command being typed.
#[derive(Debug, Clone, Copy, PartialEq, Eq, Structural)]
pub struct CommandContext {
    /// The count typed last (before the motion, or before a non-operator command).
    pub count: Option<usize>,
    /// The count typed before the operator.
    pub operator_count: Option<usize>,
    pub register: Option<char>,
    pub pending_action: Option<PendingAction>,
}

impl CommandContext {
    /// The context with nothing collected.
    pub open spec fn empty() -> CommandContext {
        CommandContext { count: None, operator_count: None, register: None, pending_action: None }
    }

    /// Forgets everything collected.
    pub fn reset(&mut self)
        ensures
            *final(self) == CommandContext::empty(),
    {
        self.count = None;
        self.operator_count = None;
        self.register = None;
        self.pending_action = None;
    }
}

impl Default for CommandContext {
    fn default() -> (r: Self)
        ensures
            r == CommandContext::empty(),
    {
        CommandContext { count: None, operator_count: None, register: None, pending_action: None }
    }
}

/// The state of the command parser.
#[derive(Debug, Clone, Copy)]
pub struct EditorState {
    pub mode: Mode,
    pub context: CommandContext,
}

impl EditorState {
    /// Normal mode with nothing collected.
    pub open spec fn initial() -> EditorState {
        EditorState { mode: Mode::Normal, context: CommandContext::empty() }
    }
}

impl Default for EditorState {
    fn default() -> (r: Self)
        ensures
            r == EditorState::initial(),
    {
        EditorState { mode: Mode::Normal, context: CommandContext::default() }
    }
}

} // verus!
