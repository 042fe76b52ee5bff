use vstd::prelude::*;

verus! {

/// Why an input sequence was rejected.
#[derive(Debug, Clone, PartialEq, Eq, Structural)]
pub enum ParseError {
    UnknownCommand,
    InvalidMotion,
    InvalidRegister,
    MacroNotFound,
}

} // verus!
