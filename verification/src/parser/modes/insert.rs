use vstd::prelude::*;
use crate::parser::VimParser;
use crate::parser::key::Key;
use crate::parser::result::ParseResult;
use crate::state::EditorState;

verus! {

/// Insert mode takes every key without completing a command.
pub open spec fn insert_step(st: EditorState, key: Key) -> (EditorState, ParseResult) {
    (st, ParseResult::Incomplete)
}

/// Reads a key in Insert mode.
pub fn handle(parser: &mut VimParser, key: Key) -> (r: ParseResult)
    ensures
        (final(parser).state, r) == insert_step(old(parser).state, key),
{
    ParseResult::Incomplete
}

} // verus!
