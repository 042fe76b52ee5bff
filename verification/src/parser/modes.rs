//! One handler per mode: each reads a key in that mode and gives the next
//! state and the result.

pub mod insert;
pub mod normal;
pub mod operator_pending;
pub mod visual;
