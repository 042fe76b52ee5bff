//! The grid game driven by Vim commands: the map, the player's movement,
//! the editor state that feeds keys to the parser, and the key input.

pub mod badge;
pub mod input;
pub mod map;
pub mod movement;
pub mod vim;
