//! What the user sees and types.

pub mod slash;
pub mod theme;
pub mod tui;
