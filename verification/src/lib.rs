//! A Vim command grammar as a verified finite state machine, with the grid
//! game logic that consumes its commands.

pub mod ast;
pub mod error;
pub mod game;
pub mod parser;
pub mod state;

pub use parser::result::ParseResult;
pub use parser::VimParser;
