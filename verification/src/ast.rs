pub mod action;
pub mod command;
pub mod motion;
pub mod operator;
pub mod target;
pub mod text_object;
