//! The OpenRouter adapter: the decoder of streamed responses, the encoding
//! of requests for the two wire flavours, and the parsing of responses.

pub mod decoder;
pub mod provider;
pub mod request;
pub mod response;

pub use decoder::{
    extract_data_payload, extract_reasoning_trace, finalize_stream_response,
    finalize_tool_calls, map_finish_reason, parse_stream_payload, parse_usage_value,
    update_tool_calls, ReasoningBuffer, StreamDecoder, StreamDelta, StreamFragment, StreamStep,
    ToolCallBuilder,
};
pub use provider::OpenRouterProvider;
