use vstd::prelude::*;
use crate::ast::motion::Motion;
use crate::ast::text_object::TextObject;

verus! {

/// What an operator acts on.
#[derive(Debug, Clone, Copy, PartialEq, Eq, Structural)]
pub enum Target {
    Motion(Motion),
    TextObject(TextObject),
    /// The whole line, written by doubling the operator (`dd`, `yy`, `cc`).
    Line,
}

} // verus!
