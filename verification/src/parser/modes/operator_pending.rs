use vstd::prelude::*;
use crate::ast::action::Action;
use crate::ast::command::ParsedCommand;
use crate::ast::motion::Motion;
use crate::ast::operator::Operator;
use crate::ast::target::Target;
use crate::ast::text_object::TextObject;
use crate::error::ParseError;
use crate::parser::VimParser;
use crate::parser::key::Key;
use crate::parser::mapping::{
    count_digit, key_motion, key_operator, parse_key_motion, parse_key_operator,
    parse_pending_action, parse_text_object_modifier, pending_action_of, saturating_mul,
    saturating_product, text_object_modifier_of, try_parse_count,
};
use crate::parser::modes::normal::with_digit;
use crate::parser::result::ParseResult;
use crate::state::{CommandContext, EditorState, Mode};

verus! {

/// The count of an operator command: the operator count times the motion
/// count (saturated), or whichever of the two was typed.
pub open spec fn combined_count(operator_count: Option<usize>, count: Option<usize>) -> Option<usize> {
    match (operator_count, count) {
        (Some(a), Some(b)) => Some(saturating_product(a, b)),
        (Some(a), None) => Some(a),
        (None, Some(b)) => Some(b),
        (None, None) => None,
    }
}

/// The context an operator command carries: the combined count and the register.
pub open spec fn combined_context_spec(ctx: CommandContext) -> CommandContext {
    CommandContext {
        count: combined_count(ctx.operator_count, ctx.count),
        operator_count: None,
        register: ctx.register,
        pending_action: None,
    }
}

/// `c` leaves the parser in Insert mode; every other operator in Normal mode.
pub open spec fn mode_after(op: Operator) -> Mode {
    if op == Operator::Change {
        Mode::Insert
    } else {
        Mode::Normal
    }
}

/// Completes an operator command on a target.
pub open spec fn operate_step(st: EditorState, op: Operator, target: Target) -> (EditorState, ParseResult) {
    (
        EditorState { mode: mode_after(op), ..st },
        ParseResult::Success(
            ParsedCommand { context: combined_context_spec(st.context), action: Action::Operate(op, target) },
        ),
    )
}

/// An operator typed after an operator: the same one acts on the line,
/// another one is an unknown command.
pub open spec fn operator_step(st: EditorState, first: Operator, second: Operator) -> (EditorState, ParseResult) {
    if first == second {
        operate_step(st, first, Target::Line)
    } else {
        (EditorState { mode: Mode::Normal, ..st }, ParseResult::Invalid(ParseError::UnknownCommand))
    }
}

/// Operator-pending mode: a count digit, a key waiting for a character, a
/// text object modifier, a second operator, or a motion; anything else is
/// an invalid motion and returns to Normal mode.
pub open spec fn operator_pending_step(st: EditorState, op: Operator, key: Key) -> (EditorState, ParseResult) {
    if let Some(d) = count_digit(key, st.context.count) {
        (with_digit(st, d), ParseResult::Incomplete)
    } else if let Some(p) = pending_action_of(key) {
        (
            EditorState { context: CommandContext { pending_action: Some(p), ..st.context }, ..st },
            ParseResult::Incomplete,
        )
    } else if let Some(p) = text_object_modifier_of(key) {
        (
            EditorState { context: CommandContext { pending_action: Some(p), ..st.context }, ..st },
            ParseResult::Incomplete,
        )
    } else if let Some(second) = key_operator(key) {
        operator_step(st, op, second)
    } else if let Some(motion) = key_motion(key) {
        operate_step(st, op, Target::Motion(motion))
    } else {
        (EditorState { mode: Mode::Normal, ..st }, ParseResult::Invalid(ParseError::InvalidMotion))
    }
}

/// Builds the context of an operator command.
pub fn combined_context(ctx: &CommandContext) -> (r: CommandContext)
    ensures
        r == combined_context_spec(*ctx),
{
    let combined = match (ctx.operator_count, ctx.count) {
        (Some(a), Some(b)) => Some(saturating_mul(a, b)),
        (Some(a), None) => Some(a),
        (None, Some(b)) => Some(b),
        (None, None) => None,
    };
    CommandContext { count: combined, operator_count: None, register: ctx.register, pending_action: None }
}

/// Reads a key while operator `op` waits for its target.
pub fn handle(parser: &mut VimParser, op: Operator, key: Key) -> (r: ParseResult)
    ensures
        (final(parser).state, r) == operator_pending_step(old(parser).state, op, key),
{
    if try_parse_count(key, &mut parser.state.context) {
        return ParseResult::Incomplete;
    }
    if let Some(pending) = parse_pending_action(key) {
        parser.state.context.pending_action = Some(pending);
        return ParseResult::Incomplete;
    }
    if let Some(modifier) = parse_text_object_modifier(key) {
        parser.state.context.pending_action = Some(modifier);
        return ParseResult::Incomplete;
    }
    if let Some(second_op) = parse_key_operator(key) {
        return handle_operator(parser, op, second_op);
    }
    if let Some(motion) = parse_key_motion(key) {
        return handle_motion(parser, op, motion);
    }
    parser.state.mode = Mode::Normal;
    ParseResult::Invalid(ParseError::InvalidMotion)
}

/// Reads a second operator: a doubled operator acts on the whole line.
pub fn handle_operator(parser: &mut VimParser, first_op: Operator, second_op: Operator) -> (r: ParseResult)
    ensures
        (final(parser).state, r) == operator_step(old(parser).state, first_op, second_op),
{
    if first_op == second_op {
        parser.state.mode = match first_op {
            Operator::Change => Mode::Insert,
            _ => Mode::Normal,
        };
        let action = Action::Operate(first_op, Target::Line);
        let command = ParsedCommand { context: combined_context(&parser.state.context), action };
        ParseResult::Success(command)
    } else {
        parser.state.mode = Mode::Normal;
        ParseResult::Invalid(ParseError::UnknownCommand)
    }
}

/// Completes an operator with a motion.
pub fn handle_motion(parser: &mut VimParser, op: Operator, motion: Motion) -> (r: ParseResult)
    ensures
        (final(parser).state, r) == operate_step(old(parser).state, op, Target::Motion(motion)),
{
    parser.state.mode = match op {
        Operator::Change => Mode::Insert,
        _ => Mode::Normal,
    };
    let action = Action::Operate(op, Target::Motion(motion));
    let command = ParsedCommand { context: combined_context(&parser.state.context), action };
    ParseResult::Success(command)
}

/// Completes an operator with a text object.
pub fn handle_text_object(parser: &mut VimParser, op: Operator, text_obj: TextObject) -> (r: ParseResult)
    ensures
        (final(parser).state, r) == operate_step(old(parser).state, op, Target::TextObject(text_obj)),
{
    parser.state.mode = match op {
        Operator::Change => Mode::Insert,
        _ => Mode::Normal,
    };
    let action = Action::Operate(op, Target::TextObject(text_obj));
    let command = ParsedCommand { context: combined_context(&parser.state.context), action };
    ParseResult::Success(command)
}

} // verus!
