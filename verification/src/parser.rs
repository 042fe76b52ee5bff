//! The core parsing engine for Vim commands.
//!
//! The parser is a finite state machine that translates sequential key
//! inputs into structured Vim commands. It keeps the current `Mode` and a
//! `CommandContext` (counts, register, a key waiting for its character).
//! `VimParser::feed` routes each key to the handler of the current mode, or
//! completes the waiting key. When a command resolves (as `Success` or
//! `Invalid`), the parser clears its context and keeps the mode that the
//! handler chose.

use vstd::prelude::*;
use crate::ast::target::Target;
use crate::error::ParseError;
use crate::parser::key::Key;
use crate::parser::mapping::{
    parse_pending_motion, parse_text_object, pending_motion_of, text_object_of,
};
use crate::parser::modes::{insert, normal, operator_pending, visual};
use crate::parser::modes::insert::insert_step;
use crate::parser::modes::normal::{normal_motion_step, normal_step};
use crate::parser::modes::operator_pending::{operate_step, operator_pending_step};
use crate::parser::modes::visual::visual_step;
use crate::parser::result::ParseResult;
use crate::parser::validation::{is_valid_register, valid_register};
use crate::state::{CommandContext, EditorState, Mode, PendingAction};

pub mod key;
pub mod laws;
pub mod mapping;
pub mod modes;
pub mod result;
pub mod validation;

verus! {

/// A key read in the current mode, with nothing waiting.
pub open spec fn route_step(st: EditorState, key: Key) -> (EditorState, ParseResult) {
    match st.mode {
        Mode::Normal => normal_step(st, key),
        Mode::Insert => insert_step(st, key),
        Mode::Visual => visual_step(st, key),
        Mode::OperatorPending(op) => operator_pending_step(st, op, key),
    }
}

/// Whether completing `pending` with `key` would need Visual mode to take a
/// motion or a text object, which it does not support.
pub open spec fn unsupported_in_visual(st: EditorState, pending: PendingAction, key: Key) -> bool {
    &&& st.mode == Mode::Visual
    &&& pending != PendingAction::Register
    &&& (pending_motion_of(pending, key) is Some || text_object_of(pending, key) is Some)
}

/// The key that completes a waiting key. After `"` a register name is
/// stored and the command goes on; anything else is an unknown command.
/// After `f`, `F`, `t`, `T` a character makes a motion, and after `i`, `a`
/// a text object, for the mode that waits; a key that completes neither is
/// an invalid motion and returns to Normal mode.
pub open spec fn resolve_step(st: EditorState, pending: PendingAction, key: Key) -> (EditorState, ParseResult) {
    if pending == PendingAction::Register {
        match key {
            Key::Char(c) => if valid_register(c) {
                (
                    EditorState { context: CommandContext { register: Some(c), ..st.context }, ..st },
                    ParseResult::Incomplete,
                )
            } else {
                (EditorState { mode: Mode::Normal, ..st }, ParseResult::Invalid(ParseError::UnknownCommand))
            },
            _ => (EditorState { mode: Mode::Normal, ..st }, ParseResult::Invalid(ParseError::UnknownCommand)),
        }
    } else if let Some(motion) = pending_motion_of(pending, key) {
        match st.mode {
            Mode::Normal => normal_motion_step(st, motion),
            Mode::OperatorPending(op) => operate_step(st, op, Target::Motion(motion)),
            _ => (st, ParseResult::Invalid(ParseError::UnknownCommand)),
        }
    } else if let Some(text_obj) = text_object_of(pending, key) {
        match st.mode {
            Mode::OperatorPending(op) => operate_step(st, op, Target::TextObject(text_obj)),
            _ => (st, ParseResult::Invalid(ParseError::UnknownCommand)),
        }
    } else {
        (EditorState { mode: Mode::Normal, ..st }, ParseResult::Invalid(ParseError::InvalidMotion))
    }
}

/// Whether `feed` would need Visual mode to take a motion or a text object.
pub open spec fn feed_unsupported(st: EditorState, key: Key) -> bool {
    match st.context.pending_action {
        Some(p) => unsupported_in_visual(st, p, key),
        None => false,
    }
}

/// The state with nothing waiting.
pub open spec fn without_pending(st: EditorState) -> EditorState {
    EditorState { context: CommandContext { pending_action: None, ..st.context }, ..st }
}

/// One key fed to the parser: the waiting key is completed, or the key is
/// read in the current mode; a resolved command clears the context.
pub open spec fn feed_step(st: EditorState, key: Key) -> (EditorState, ParseResult) {
    let (next, r) = match st.context.pending_action {
        Some(p) => resolve_step(without_pending(st), p, key),
        None => route_step(st, key),
    };
    match r {
        ParseResult::Incomplete => (next, r),
        _ => (EditorState { context: CommandContext::empty(), ..next }, r),
    }
}

/// A stateful parser that translates sequential key inputs into Vim commands.
///
/// `VimParser` interprets keystrokes by standard Vim grammar: motions,
/// operators, counts (multipliers), text objects, registers and keys that
/// wait for a character (such as `f` or `i` after an operator). It takes
/// keys through [`feed`](Self::feed) and gives a [`ParseResult`].
pub struct VimParser {
    pub state: EditorState,
}

impl Default for VimParser {
    fn default() -> (r: Self)
        ensures
            r.state == EditorState::initial(),
    {
        VimParser { state: EditorState::default() }
    }
}

impl VimParser {
    /// A parser in Normal mode with nothing collected.
    pub fn new() -> (r: Self)
        ensures
            r.state == EditorState::initial(),
    {
        Self::default()
    }

    /// Feeds one key.
    pub fn feed(&mut self, key: Key) -> (r: ParseResult)
        requires
            !feed_unsupported(old(self).state, key),
        ensures
            (final(self).state, r) == feed_step(old(self).state, key),
    {
        let result = if let Some(pending) = self.state.context.pending_action.take() {
            self.resolve_pending(pending, key)
        } else {
            self.route_input(key)
        };
        match result {
            ParseResult::Success(_) | ParseResult::Invalid(_) => {
                self.state.context.reset();
            },
            ParseResult::Incomplete => {},
        }
        result
    }

    /// Whether `feed` can take `key` now: Visual mode does not support the
    /// motions and text objects that complete a waiting key.
    pub fn supports(&self, key: Key) -> (r: bool)
        ensures
            r == !feed_unsupported(self.state, key),
    {
        match self.state.context.pending_action {
            Some(p) => !(self.state.mode == Mode::Visual && p != PendingAction::Register && (
            parse_pending_motion(p, key).is_some() || parse_text_object(p, key).is_some())),
            None => true,
        }
    }

    fn resolve_pending(&mut self, pending: PendingAction, key: Key) -> (r: ParseResult)
        requires
            !unsupported_in_visual(old(self).state, pending, key),
        ensures
            (final(self).state, r) == resolve_step(old(self).state, pending, key),
    {
        if pending == PendingAction::Register {
            let valid = match key {
                Key::Char(c) => is_valid_register(c),
                _ => false,
            };
            return if valid {
                if let Key::Char(c) = key {
                    self.state.context.register = Some(c);
                }
                ParseResult::Incomplete
            } else {
                self.state.mode = Mode::Normal;
                ParseResult::Invalid(ParseError::UnknownCommand)
            };
        }
        if let Some(motion) = parse_pending_motion(pending, key) {
            return match self.state.mode {
                Mode::Normal => normal::handle_motion(self, motion),
                Mode::OperatorPending(op) => operator_pending::handle_motion(self, op, motion),
                Mode::Visual => ParseResult::Invalid(ParseError::UnknownCommand),
                Mode::Insert => ParseResult::Invalid(ParseError::UnknownCommand),
            };
        }
        if let Some(text_obj) = parse_text_object(pending, key) {
            return match self.state.mode {
                Mode::OperatorPending(op) => operator_pending::handle_text_object(self, op, text_obj),
                _ => ParseResult::Invalid(ParseError::UnknownCommand),
            };
        }
        self.state.mode = Mode::Normal;
        ParseResult::Invalid(ParseError::InvalidMotion)
    }

    fn route_input(&mut self, key: Key) -> (r: ParseResult)
        ensures
            (final(self).state, r) == route_step(old(self).state, key),
    {
        match self.state.mode {
            Mode::Normal => normal::handle(self, key),
            Mode::Insert => insert::handle(self, key),
            Mode::Visual => visual::handle(self, key),
            Mode::OperatorPending(op) => operator_pending::handle(self, op, key),
        }
    }
}

} // verus!
