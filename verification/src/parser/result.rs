use vstd::prelude::*;
use crate::ast::command::ParsedCommand;
use crate::error::ParseError;

verus! {

/// The outcome of feeding one key to the parser.
#[derive(Debug, Clone, PartialEq, Eq)]
pub enum ParseResult {
    /// More keys are needed.
    Incomplete,
    /// A command is complete.
    Success(ParsedCommand),
    /// The keys typed so far form no command.
    Invalid(ParseError),
}

} // verus!
