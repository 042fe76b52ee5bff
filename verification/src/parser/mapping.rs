//! Maps keys to AST nodes.

use vstd::prelude::*;
use crate::ast::action::Action;
use crate::ast::motion::Motion;
use crate::ast::operator::Operator;
use crate::ast::text_object::TextObject;
use crate::parser::key::Key;
use crate::state::{CommandContext, PendingAction};

verus! {

/// The motion bound to a single character.
pub open spec fn motion_of_char(c: char) -> Option<Motion> {
    if c == 'h' {
        Some(Motion::Left)
    } else if c == 'j' {
        Some(Motion::Down)
    } else if c == 'k' {
        Some(Motion::Up)
    } else if c == 'l' {
        Some(Motion::Right)
    } else if c == 'w' {
        Some(Motion::WordForward)
    } else if c == 'b' {
        Some(Motion::WordBackward)
    } else if c == '0' {
        Some(Motion::StartOfLine)
    } else if c == '$' {
        Some(Motion::EndOfLine)
    } else {
        None
    }
}

/// The operator bound to a single character.
pub open spec fn operator_of_char(c: char) -> Option<Operator> {
    if c == 'd' {
        Some(Operator::Delete)
    } else if c == 'y' {
        Some(Operator::Yank)
    } else if c == 'c' {
        Some(Operator::Change)
    } else {
        None
    }
}

/// The motion bound to a key: a motion character or an arrow key.
pub open spec fn key_motion(key: Key) -> Option<Motion> {
    match key {
        Key::Char(c) => motion_of_char(c),
        Key::Left => Some(Motion::Left),
        Key::Right => Some(Motion::Right),
        Key::Up => Some(Motion::Up),
        Key::Down => Some(Motion::Down),
        _ => None,
    }
}

/// The operator bound to a key.
pub open spec fn key_operator(key: Key) -> Option<Operator> {
    match key {
        Key::Char(c) => operator_of_char(c),
        _ => None,
    }
}

/// The keys that wait for one more character: `f`, `F`, `t`, `T` and `"`.
pub open spec fn pending_action_of(key: Key) -> Option<PendingAction> {
    match key {
        Key::Char(c) => if c == 'f' {
            Some(PendingAction::FindForward)
        } else if c == 'F' {
            Some(PendingAction::FindBackward)
        } else if c == 't' {
            Some(PendingAction::TillForward)
        } else if c == 'T' {
            Some(PendingAction::TillBackward)
        } else if c == '"' {
            Some(PendingAction::Register)
        } else {
            None
        },
        _ => None,
    }
}

/// The text object modifiers `i` and `a`, which follow an operator.
pub open spec fn text_object_modifier_of(key: Key) -> Option<PendingAction> {
    match key {
        Key::Char(c) => if c == 'i' {
            Some(PendingAction::Inner)
        } else if c == 'a' {
            Some(PendingAction::Around)
        } else {
            None
        },
        _ => None,
    }
}

/// The commands made of a single key: `u` (undo) and `Ctrl-r` (redo).
pub open spec fn standalone_action_of(key: Key) -> Option<Action> {
    match key {
        Key::Char(c) => if c == 'u' {
            Some(Action::Undo)
        } else {
            None
        },
        Key::Ctrl(c) => if c == 'r' {
            Some(Action::Redo)
        } else {
            None
        },
        _ => None,
    }
}

/// The motion that a pending `f`, `F`, `t` or `T` makes with the next character.
pub open spec fn pending_motion_of(pending: PendingAction, key: Key) -> Option<Motion> {
    match key {
        Key::Char(c) => match pending {
            PendingAction::FindForward => Some(Motion::FindForward(c)),
            PendingAction::FindBackward => Some(Motion::FindBackward(c)),
            PendingAction::TillForward => Some(Motion::TillForward(c)),
            PendingAction::TillBackward => Some(Motion::TillBackward(c)),
            _ => None,
        },
        _ => None,
    }
}

/// The text object that a pending `i` or `a` makes with the next character.
pub open spec fn text_object_of(pending: PendingAction, key: Key) -> Option<TextObject> {
    match (pending, key) {
        (PendingAction::Inner, Key::Char(c)) => if c == 'w' {
            Some(TextObject::InnerWord)
        } else {
            None
        },
        (PendingAction::Around, Key::Char(c)) => if c == 'w' {
            Some(TextObject::AWord)
        } else {
            None
        },
        _ => None,
    }
}

/// The digit that a key adds to a count being typed: `1`..`9` always,
/// `0` only once a count has begun (alone it is a motion).
pub open spec fn count_digit(key: Key, count: Option<usize>) -> Option<nat> {
    match key {
        Key::Char(c) => if ('1' <= c && c <= '9') || (c == '0' && count is Some) {
            Some((c as int - '0' as int) as nat)
        } else {
            None
        },
        _ => None,
    }
}

/// `a * b`, or `usize::MAX` where that does not fit.
pub open spec fn saturating_product(a: usize, b: usize) -> usize {
    if a * b > usize::MAX {
        usize::MAX
    } else {
        (a * b) as usize
    }
}

/// `a + b`, or `usize::MAX` where that does not fit.
pub open spec fn saturating_sum(a: usize, b: usize) -> usize {
    if a + b > usize::MAX {
        usize::MAX
    } else {
        (a + b) as usize
    }
}

/// The count after the digit `d` is typed: the decimal value, saturated at `usize::MAX`.
pub open spec fn extend_count(count: Option<usize>, d: nat) -> usize
    recommends
        d < 10,
{
    let before: usize = match count {
        Some(n) => n,
        None => 0,
    };
    saturating_sum(saturating_product(before, 10), d as usize)
}

/// Multiplies, saturating at `usize::MAX`.
pub fn saturating_mul(a: usize, b: usize) -> (r: usize)
    ensures
        r == saturating_product(a, b),
{
    match a.checked_mul(b) {
        Some(p) => p,
        None => usize::MAX,
    }
}

/// Parses a character into a motion.
pub fn parse_motion(c: char) -> (r: Option<Motion>)
    ensures
        r == motion_of_char(c),
{
    match c {
        'h' => Some(Motion::Left),
        'j' => Some(Motion::Down),
        'k' => Some(Motion::Up),
        'l' => Some(Motion::Right),
        'w' => Some(Motion::WordForward),
        'b' => Some(Motion::WordBackward),
        '0' => Some(Motion::StartOfLine),
        '$' => Some(Motion::EndOfLine),
        _ => None,
    }
}

/// Parses a character into an operator.
pub fn parse_operator(c: char) -> (r: Option<Operator>)
    ensures
        r == operator_of_char(c),
{
    match c {
        'd' => Some(Operator::Delete),
        'y' => Some(Operator::Yank),
        'c' => Some(Operator::Change),
        _ => None,
    }
}

/// Parses a key into a motion.
pub fn parse_key_motion(key: Key) -> (r: Option<Motion>)
    ensures
        r == key_motion(key),
{
    match key {
        Key::Char(c) => parse_motion(c),
        Key::Left => Some(Motion::Left),
        Key::Right => Some(Motion::Right),
        Key::Up => Some(Motion::Up),
        Key::Down => Some(Motion::Down),
        _ => None,
    }
}

/// Parses a key into an operator.
pub fn parse_key_operator(key: Key) -> (r: Option<Operator>)
    ensures
        r == key_operator(key),
{
    match key {
        Key::Char(c) => parse_operator(c),
        _ => None,
    }
}

/// Parses a key that waits for another character.
pub fn parse_pending_action(key: Key) -> (r: Option<PendingAction>)
    ensures
        r == pending_action_of(key),
{
    match key {
        Key::Char('f') => Some(PendingAction::FindForward),
        Key::Char('F') => Some(PendingAction::FindBackward),
        Key::Char('t') => Some(PendingAction::TillForward),
        Key::Char('T') => Some(PendingAction::TillBackward),
        Key::Char('"') => Some(PendingAction::Register),
        _ => None,
    }
}

/// Parses a text object modifier.
pub fn parse_text_object_modifier(key: Key) -> (r: Option<PendingAction>)
    ensures
        r == text_object_modifier_of(key),
{
    match key {
        Key::Char('i') => Some(PendingAction::Inner),
        Key::Char('a') => Some(PendingAction::Around),
        _ => None,
    }
}

/// Parses a command made of a single key.
pub fn parse_standalone_action(key: Key) -> (r: Option<Action>)
    ensures
        r == standalone_action_of(key),
{
    match key {
        Key::Char('u') => Some(Action::Undo),
        Key::Ctrl('r') => Some(Action::Redo),
        _ => None,
    }
}

/// Completes a pending `f`, `F`, `t` or `T` into a motion.
pub fn parse_pending_motion(pending: PendingAction, key: Key) -> (r: Option<Motion>)
    ensures
        r == pending_motion_of(pending, key),
{
    match key {
        Key::Char(c) => match pending {
            PendingAction::FindForward => Some(Motion::FindForward(c)),
            PendingAction::FindBackward => Some(Motion::FindBackward(c)),
            PendingAction::TillForward => Some(Motion::TillForward(c)),
            PendingAction::TillBackward => Some(Motion::TillBackward(c)),
            _ => None,
        },
        _ => None,
    }
}

/// Completes a pending `i` or `a` into a text object.
pub fn parse_text_object(pending: PendingAction, key: Key) -> (r: Option<TextObject>)
    ensures
        r == text_object_of(pending, key),
{
    match (pending, key) {
        (PendingAction::Inner, Key::Char('w')) => Some(TextObject::InnerWord),
        (PendingAction::Around, Key::Char('w')) => Some(TextObject::AWord),
        _ => None,
    }
}

/// Adds a count digit to the context, if the key is one.
pub fn try_parse_count(key: Key, ctx: &mut CommandContext) -> (r: bool)
    ensures
        r == count_digit(key, old(ctx).count) is Some,
        r ==> *final(ctx) == (CommandContext {
            count: Some(extend_count(old(ctx).count, count_digit(key, old(ctx).count)->0)),
            ..*old(ctx)
        }),
        !r ==> *final(ctx) == *old(ctx),
{
    if let Key::Char(c) = key {
        if ('1' <= c && c <= '9') || (c == '0' && ctx.count.is_some()) {
            let d = ((c as u32) - ('0' as u32)) as usize;
            let before = match ctx.count {
                Some(n) => n,
                None => 0,
            };
            ctx.count = Some(saturating_mul(before, 10).saturating_add(d));
            return true;
        }
    }
    false
}

} // verus!
