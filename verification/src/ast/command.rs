use vstd::prelude::*;
use crate::ast::action::Action;
use crate::state::CommandContext;

verus! {

/// A complete command: its action together with the count and register
/// collected before it.
#[derive(Debug, Clone, PartialEq, Eq)]
pub struct ParsedCommand {
    pub context: CommandContext,
    pub action: Action,
}

} // verus!
