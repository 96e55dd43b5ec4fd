//! Helpers of the interactive loop.

pub mod model_picker;
