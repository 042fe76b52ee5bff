//! What holds of every key fed to the parser.

use vstd::prelude::*;
use crate::ast::action::Action;
use crate::ast::motion::Motion;
use crate::error::ParseError;
use crate::parser::feed_step;
use crate::parser::key::Key;
use crate::parser::mapping::{count_digit, extend_count};
use crate::parser::modes::operator_pending::{combined_count, mode_after};
use crate::parser::result::ParseResult;
use crate::parser::validation::valid_register;
use crate::state::{CommandContext, EditorState, Mode, PendingAction};

verus! {

/// A resolved command, successful or not, leaves nothing collected: no
/// count, operator count, register or waiting key carries over to the
/// next command.
pub proof fn law_resolution_clears_context(st: EditorState, key: Key)
    ensures
        !(feed_step(st, key).1 is Incomplete) ==> feed_step(st, key).0.context == CommandContext::empty(),
{
}

/// A command completed from Normal or Operator-pending mode returns to
/// Normal mode, except that `c` with its target enters Insert mode.
pub proof fn law_success_mode(st: EditorState, key: Key)
    requires
        st.mode is Normal || st.mode is OperatorPending,
    ensures
        feed_step(st, key).1 matches ParseResult::Success(cmd) ==> feed_step(st, key).0.mode == match cmd.action {
            Action::Operate(op, _) => mode_after(op),
            _ => Mode::Normal,
        },
{
}

/// An operator command carries the operator count times the motion count
/// (saturated at `usize::MAX`), or whichever was typed, and the register
/// selected before it.
pub proof fn law_operator_count(st: EditorState, key: Key)
    ensures
        feed_step(st, key).1 matches ParseResult::Success(cmd) ==> (cmd.action is Operate ==> cmd.context
            == (CommandContext {
            count: combined_count(st.context.operator_count, st.context.count),
            operator_count: None,
            register: st.context.register,
            pending_action: None,
        })),
{
}

/// Any other command typed in Normal mode carries the count and register
/// collected before it unchanged.
pub proof fn law_normal_command_context(st: EditorState, key: Key)
    requires
        st.mode == Mode::Normal,
    ensures
        feed_step(st, key).1 matches ParseResult::Success(cmd) ==> (!(cmd.action is Operate)
            ==> cmd.context == CommandContext { pending_action: None, ..st.context }),
{
}

/// A rejected input never leaves an operator waiting.
pub proof fn law_invalid_aborts_operator(st: EditorState, key: Key)
    ensures
        feed_step(st, key).1 is Invalid ==> !(feed_step(st, key).0.mode is OperatorPending),
{
}

/// In Normal and Operator-pending mode, a digit extends the count being
/// typed as a decimal number (saturating at `usize::MAX`); `0` does so only
/// after another digit.
pub proof fn law_count_digit(st: EditorState, c: char)
    requires
        st.mode is Normal || st.mode is OperatorPending,
        st.context.pending_action is None,
        ('1' <= c && c <= '9') || (c == '0' && st.context.count is Some),
    ensures
        feed_step(st, Key::Char(c)).1 == ParseResult::Incomplete,
        feed_step(st, Key::Char(c)).0 == (EditorState {
            context: CommandContext {
                count: Some(extend_count(st.context.count, (c as int - '0' as int) as nat)),
                ..st.context
            },
            ..st
        }),
{
    assert(count_digit(Key::Char(c), st.context.count) == Some((c as int - '0' as int) as nat));
}

/// `0` with no count begun moves to the start of the line.
pub proof fn law_zero_is_motion(st: EditorState)
    requires
        st.mode == Mode::Normal,
        st.context.pending_action is None,
        st.context.count is None,
    ensures
        feed_step(st, Key::Char('0')).1 == ParseResult::Success(
            crate::ast::command::ParsedCommand { context: st.context, action: Action::Move(Motion::StartOfLine) },
        ),
        feed_step(st, Key::Char('0')).0 == (EditorState { context: CommandContext::empty(), ..st }),
{
}

/// After `"`, a register name is stored and the command goes on in the
/// same mode; any other key is an unknown command that returns to Normal
/// mode.
pub proof fn law_register_selection(st: EditorState, key: Key)
    requires
        st.context.pending_action == Some(PendingAction::Register),
    ensures
        (key matches Key::Char(c) && valid_register(c)) ==> {
            &&& feed_step(st, key).1 == ParseResult::Incomplete
            &&& feed_step(st, key).0 == (EditorState {
                context: CommandContext { register: Some(key->Char_0), pending_action: None, ..st.context },
                ..st
            })
        },
        !(key matches Key::Char(c) && valid_register(c)) ==> {
            &&& feed_step(st, key).1 == ParseResult::Invalid(ParseError::UnknownCommand)
            &&& feed_step(st, key).0 == EditorState::initial()
        },
{
}

/// Insert mode takes every key and keeps its state.
pub proof fn law_insert_absorbs(st: EditorState, key: Key)
    requires
        st.mode == Mode::Insert,
        st.context.pending_action is None,
    ensures
        feed_step(st, key) == (st, ParseResult::Incomplete),
{
}

} // verus!

verus! {

/// The state after typing the characters in order.
pub open spec fn feed_chars(st: EditorState, chars: Seq<char>) -> EditorState
    decreases chars.len(),
{
    if chars.len() == 0 {
        st
    } else {
        feed_step(feed_chars(st, chars.drop_last()), Key::Char(chars.last())).0
    }
}

/// The number that a string of decimal digits writes.
pub open spec fn decimal_value(digits: Seq<char>) -> nat
    decreases digits.len(),
{
    if digits.len() == 0 {
        0
    } else {
        decimal_value(digits.drop_last()) * 10 + (digits.last() as int - '0' as int) as nat
    }
}

/// Whether every character is a decimal digit.
pub open spec fn all_digits(digits: Seq<char>) -> bool {
    forall|i: int| 0 <= i < digits.len() ==> '0' <= #[trigger] digits[i] && digits[i] <= '9'
}

/// A count typed digit by digit is the decimal number the digits write,
/// saturated at `usize::MAX`, in Normal and Operator-pending mode alike.
pub proof fn law_count_is_decimal(st: EditorState, digits: Seq<char>)
    requires
        st.mode is Normal || st.mode is OperatorPending,
        st.context.pending_action is None,
        st.context.count is None,
        digits.len() > 0,
        '1' <= digits[0] && digits[0] <= '9',
        all_digits(digits),
    ensures
        feed_chars(st, digits) == (EditorState {
            context: CommandContext {
                count: Some(
                    if decimal_value(digits) > usize::MAX {
                        usize::MAX
                    } else {
                        decimal_value(digits) as usize
                    },
                ),
                ..st.context
            },
            ..st
        }),
    decreases digits.len(),
{
    let last = digits.last();
    if digits.len() == 1 {
        assert(digits.drop_last() =~= Seq::<char>::empty());
        assert(decimal_value(digits.drop_last()) == 0);
        law_count_digit(st, last);
    } else {
        let prefix = digits.drop_last();
        assert(prefix[0] == digits[0]);
        assert(all_digits(prefix)) by {
            assert forall|i: int| 0 <= i < prefix.len() implies '0' <= #[trigger] prefix[i] && prefix[i] <= '9' by {
                assert(prefix[i] == digits[i]);
            }
        }
        law_count_is_decimal(st, prefix);
        let mid = feed_chars(st, prefix);
        assert('0' <= digits[digits.len() - 1] && digits[digits.len() - 1] <= '9');
        law_count_digit(mid, last);
    }
}

} // verus!

verus! {

/// The motion that `f`, `F`, `t` or `T` followed by `x` stands for: each of
/// the four keys gives its own motion towards `x`.
pub open spec fn find_till_motion(waiting: char, x: char) -> Option<Motion> {
    if waiting == 'f' {
        Some(Motion::FindForward(x))
    } else if waiting == 'F' {
        Some(Motion::FindBackward(x))
    } else if waiting == 't' {
        Some(Motion::TillForward(x))
    } else if waiting == 'T' {
        Some(Motion::TillBackward(x))
    } else {
        None
    }
}

/// The four find/till keys give four different motions for the same target.
pub proof fn law_find_till_motions_distinct(a: char, b: char, x: char)
    requires
        find_till_motion(a, x) is Some,
        find_till_motion(b, x) is Some,
        a != b,
    ensures
        find_till_motion(a, x) != find_till_motion(b, x),
{
}

/// A rejected key never leaves the parser in Insert or Operator-pending
/// mode when it was typed in Normal or Operator-pending mode: rejected
/// input returns to Normal mode and forgets everything collected.
pub proof fn law_invalid_returns_to_normal(st: EditorState, key: Key)
    requires
        st.mode is Normal || st.mode is OperatorPending,
    ensures
        feed_step(st, key).1 is Invalid ==> feed_step(st, key).0 == EditorState::initial(),
{
}

/// In Normal mode a waiting key (`f`, `F`, `t`, `T` or `"`) keeps the count,
/// operator count and register collected so far, and waits.
pub proof fn law_waiting_key_keeps_context(st: EditorState, w: char)
    requires
        st.mode == Mode::Normal,
        st.context.pending_action is None,
        w == 'f' || w == 'F' || w == 't' || w == 'T' || w == '"',
    ensures
        feed_step(st, Key::Char(w)).1 == ParseResult::Incomplete,
        feed_step(st, Key::Char(w)).0.mode == Mode::Normal,
        feed_step(st, Key::Char(w)).0.context.count == st.context.count,
        feed_step(st, Key::Char(w)).0.context.operator_count == st.context.operator_count,
        feed_step(st, Key::Char(w)).0.context.register == st.context.register,
        feed_step(st, Key::Char(w)).0.context.pending_action is Some,
{
}

/// In Normal mode, `f`, `F`, `t` or `T` followed by any character `x` moves
/// by that key's own motion towards `x`, carrying the count and register
/// typed before it, and stays in Normal mode with nothing collected.
pub proof fn law_find_till_in_normal_mode(st: EditorState, w: char, x: char)
    requires
        st.mode == Mode::Normal,
        st.context.pending_action is None,
        find_till_motion(w, x) is Some,
    ensures
        ({
            let waiting = feed_step(st, Key::Char(w)).0;
            &&& feed_step(waiting, Key::Char(x)).1 == ParseResult::Success(
                crate::ast::command::ParsedCommand {
                    context: CommandContext { pending_action: None, ..st.context },
                    action: Action::Move(find_till_motion(w, x)->0),
                },
            )
            &&& feed_step(waiting, Key::Char(x)).0 == EditorState::initial()
        }),
{
}

/// After an operator, `f`, `F`, `t` or `T` followed by any character `x`
/// makes the operator act on that key's own motion towards `x`; `c` then
/// enters Insert mode and every other operator returns to Normal mode.
pub proof fn law_find_till_after_operator(st: EditorState, op: crate::ast::operator::Operator, w: char, x: char)
    requires
        st.mode == Mode::OperatorPending(op),
        st.context.pending_action is None,
        find_till_motion(w, x) is Some,
    ensures
        ({
            let waiting = feed_step(st, Key::Char(w)).0;
            &&& feed_step(waiting, Key::Char(x)).1 matches ParseResult::Success(cmd)
                && cmd.action == Action::Operate(op, crate::ast::target::Target::Motion(find_till_motion(w, x)->0))
                && cmd.context.register == st.context.register
            &&& feed_step(waiting, Key::Char(x)).0.mode == if op == crate::ast::operator::Operator::Change {
                Mode::Insert
            } else {
                Mode::Normal
            }
        }),
{
}

} // verus!
