//! Provider adapters.

pub mod openrouter;
