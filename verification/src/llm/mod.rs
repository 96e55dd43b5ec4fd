//! Language-model requests, responses and the provider adapter.

pub mod error_display;
pub mod provider;
pub mod providers;
