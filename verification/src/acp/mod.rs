//! The bridge that exposes the agent to an external client.

pub mod zed;
