//! The tool registry: which tools exist, and the policy gate in front of
//! them.

pub mod policy;

pub use policy::ToolRegistry;
