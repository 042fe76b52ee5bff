use vstd::prelude::*;
use crate::ast::action::Action;
use crate::ast::command::ParsedCommand;
use crate::error::ParseError;
use crate::parser::VimParser;
use crate::parser::key::Key;
use crate::parser::result::ParseResult;
use crate::state::{EditorState, Mode};

verus! {

/// Visual mode knows only `Esc`, which cancels it and returns to Normal mode.
pub open spec fn visual_step(st: EditorState, key: Key) -> (EditorState, ParseResult) {
    if key == Key::Esc {
        (
            EditorState { mode: Mode::Normal, ..st },
            ParseResult::Success(ParsedCommand { context: st.context, action: Action::Cancel }),
        )
    } else {
        (st, ParseResult::Invalid(ParseError::UnknownCommand))
    }
}

/// Reads a key in Visual mode.
pub fn handle(parser: &mut VimParser, key: Key) -> (r: ParseResult)
    ensures
        (final(parser).state, r) == visual_step(old(parser).state, key),
{
    if key == Key::Esc {
        parser.state.mode = Mode::Normal;
        ParseResult::Success(ParsedCommand { context: parser.state.context, action: Action::Cancel })
    } else {
        ParseResult::Invalid(ParseError::UnknownCommand)
    }
}

} // verus!
