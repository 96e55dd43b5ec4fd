//! The inline terminal session.

pub mod driver;
pub mod prompt;
pub mod session;
pub mod style;
pub mod transcript;
pub mod types;
pub mod wrap;
