//! The tools the model may call.

pub mod registry;
