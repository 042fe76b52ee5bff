use vstd::prelude::*;

verus! {

/// A text object selected after an `i` (inner) or `a` (around) modifier.
#[derive(Debug, Clone, Copy, PartialEq, Eq, Structural)]
pub enum TextObject {
    /// `iw`
    InnerWord,
    /// `aw`
    AWord,
}

} // verus!
