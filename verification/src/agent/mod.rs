//! What the interactive loop of the agent decides.

pub mod runloop;
