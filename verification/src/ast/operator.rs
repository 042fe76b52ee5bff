use vstd::prelude::*;

verus! {

/// An operator that acts on a target (`d`, `y`, `c`, ...).
#[derive(Debug, Clone, PartialEq, Eq, Copy, Structural)]
pub enum Operator {
    Delete,
    Yank,
    Change,
    Indent,
    Outdent,
    Format,
}

} // verus!
