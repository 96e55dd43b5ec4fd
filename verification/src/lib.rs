//! Core of a terminal coding assistant: the stream decoder, the tool policy
//! gate, the context curator, the provider adapter, the turn orchestrator,
//! the client bridge and the inline session, each as verified logic on plain
//! values.

pub mod acp;
pub mod agent;
pub mod config;
pub mod context_curator;
pub mod json;
pub mod llm;
pub mod text;
pub mod tool_policy;
pub mod tools;
pub mod ui;
pub mod uri;
