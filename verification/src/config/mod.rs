//! Configuration values that the core consumes.

pub mod acp;
pub mod constants;
pub mod context;
