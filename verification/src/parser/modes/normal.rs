use vstd::prelude::*;
use crate::ast::action::Action;
use crate::ast::command::ParsedCommand;
use crate::ast::motion::Motion;
use crate::error::ParseError;
use crate::parser::VimParser;
use crate::parser::key::Key;
use crate::parser::mapping::{
    count_digit, extend_count, key_motion, key_operator, parse_key_motion, parse_key_operator,
    parse_pending_action, parse_standalone_action, pending_action_of, standalone_action_of,
    try_parse_count,
};
use crate::parser::result::ParseResult;
use crate::state::{CommandContext, EditorState, Mode};

verus! {

/// The state after a count digit `d` is typed.
pub open spec fn with_digit(st: EditorState, d: nat) -> EditorState {
    EditorState {
        context: CommandContext { count: Some(extend_count(st.context.count, d)), ..st.context },
        ..st
    }
}

/// A motion typed in Normal mode moves with the context collected so far.
pub open spec fn normal_motion_step(st: EditorState, motion: Motion) -> (EditorState, ParseResult) {
    (st, ParseResult::Success(ParsedCommand { context: st.context, action: Action::Move(motion) }))
}

/// Normal mode: a count digit, an operator (which moves the count to the
/// operator count and waits for a target), a key waiting for a character,
/// a single-key command, or a motion; anything else is an unknown command.
pub open spec fn normal_step(st: EditorState, key: Key) -> (EditorState, ParseResult) {
    if let Some(d) = count_digit(key, st.context.count) {
        (with_digit(st, d), ParseResult::Incomplete)
    } else if let Some(op) = key_operator(key) {
        (
            EditorState {
                mode: Mode::OperatorPending(op),
                context: CommandContext { count: None, operator_count: st.context.count, ..st.context },
            },
            ParseResult::Incomplete,
        )
    } else if let Some(p) = pending_action_of(key) {
        (
            EditorState { context: CommandContext { pending_action: Some(p), ..st.context }, ..st },
            ParseResult::Incomplete,
        )
    } else if let Some(action) = standalone_action_of(key) {
        (st, ParseResult::Success(ParsedCommand { context: st.context, action }))
    } else if let Some(motion) = key_motion(key) {
        normal_motion_step(st, motion)
    } else {
        (st, ParseResult::Invalid(ParseError::UnknownCommand))
    }
}

/// Reads a key in Normal mode.
pub fn handle(parser: &mut VimParser, key: Key) -> (r: ParseResult)
    ensures
        (final(parser).state, r) == normal_step(old(parser).state, key),
{
    if try_parse_count(key, &mut parser.state.context) {
        return ParseResult::Incomplete;
    }
    if let Some(op) = parse_key_operator(key) {
        parser.state.context.operator_count = parser.state.context.count.take();
        parser.state.mode = Mode::OperatorPending(op);
        return ParseResult::Incomplete;
    }
    if let Some(pending) = parse_pending_action(key) {
        parser.state.context.pending_action = Some(pending);
        return ParseResult::Incomplete;
    }
    if let Some(action) = parse_standalone_action(key) {
        let command = ParsedCommand { context: parser.state.context, action };
        return ParseResult::Success(command);
    }
    if let Some(motion) = parse_key_motion(key) {
        return handle_motion(parser, motion);
    }
    ParseResult::Invalid(ParseError::UnknownCommand)
}

/// Completes a motion in Normal mode.
pub fn handle_motion(parser: &mut VimParser, motion: Motion) -> (r: ParseResult)
    ensures
        (final(parser).state, r) == normal_motion_step(old(parser).state, motion),
{
    let action = Action::Move(motion);
    let command = ParsedCommand { context: parser.state.context, action };
    ParseResult::Success(command)
}

} // verus!
