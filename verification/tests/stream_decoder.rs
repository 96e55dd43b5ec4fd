use vtcode_core::json::Json;
use vtcode_core::llm::provider::{FinishReason, LLMError, LLMStreamEvent, Usage};
use vtcode_core::llm::providers::openrouter::{
    extract_data_payload, extract_reasoning_trace, finalize_stream_response, finalize_tool_calls,
    map_finish_reason, parse_stream_payload, parse_usage_value, update_tool_calls, ReasoningBuffer,
    StreamDecoder, StreamFragment, ToolCallBuilder,
};

fn json(text: &str) -> Json {
    Json::parse(text).expect("the text of a test is JSON")
}

fn fragment_texts(fragments: &[StreamFragment]) -> Vec<(bool, String)> {
    fragments
        .iter()
        .map(|fragment| match fragment {
            StreamFragment::Content(text) => (true, text.clone()),
            StreamFragment::Reasoning(text) => (false, text.clone()),
        })
        .collect()
}

fn tokens(events: &[LLMStreamEvent]) -> Vec<String> {
    events
        .iter()
        .filter_map(|event| match event {
            LLMStreamEvent::Token { delta } => Some(delta.clone()),
            _ => None,
        })
        .collect()
}

#[test]
fn test_extract_data_payload_joins_multiline_events() {
    let event = ": keep-alive\n".to_string() + "data: {\"a\":1}\n" + "data: {\"b\":2}\n";
    let payload = extract_data_payload(&event);
    assert_eq!(payload.as_deref(), Some("{\"a\":1}\n{\"b\":2}"));
}

#[test]
fn test_parse_stream_payload_chat_chunk() {
    let payload = json(
        r#"{"choices": [{"delta": {"content": [{"type": "output_text", "text": "Hello"}]}}]}"#,
    );

    let mut aggregated = String::new();
    let mut builders = Vec::new();
    let mut reasoning = ReasoningBuffer::new();
    let mut usage = None;
    let mut finish_reason = FinishReason::Stop;

    let delta = parse_stream_payload(
        &payload,
        &mut aggregated,
        &mut builders,
        &mut reasoning,
        &mut usage,
        &mut finish_reason,
    );

    let fragments = delta.expect("delta should exist").into_fragments();
    assert_eq!(fragment_texts(&fragments), vec![(true, "Hello".to_string())]);
    assert_eq!(aggregated, "Hello");
    assert!(builders.is_empty());
    assert!(usage.is_none());
    assert!(reasoning.finalize().is_none());
}

#[test]
fn test_parse_stream_payload_response_delta() {
    let payload = json(
        r#"{"type": "response.delta", "delta": {"type": "output_text_delta", "text": "Stream"}}"#,
    );

    let mut aggregated = String::new();
    let mut builders = Vec::new();
    let mut reasoning = ReasoningBuffer::new();
    let mut usage = None;
    let mut finish_reason = FinishReason::Stop;

    let delta = parse_stream_payload(
        &payload,
        &mut aggregated,
        &mut builders,
        &mut reasoning,
        &mut usage,
        &mut finish_reason,
    );

    let fragments = delta.expect("delta should exist").into_fragments();
    assert_eq!(fragment_texts(&fragments), vec![(true, "Stream".to_string())]);
    assert_eq!(aggregated, "Stream");
}

#[test]
fn parse_usage_value_includes_cache_metrics() {
    let value = json(
        r#"{"prompt_tokens": 120, "completion_tokens": 80, "total_tokens": 200,
            "prompt_cache_read_tokens": 90, "prompt_cache_write_tokens": 15}"#,
    );

    let usage = parse_usage_value(&value);
    assert_eq!(usage.prompt_tokens, 120);
    assert_eq!(usage.completion_tokens, 80);
    assert_eq!(usage.total_tokens, 200);
    assert_eq!(usage.cached_prompt_tokens, Some(90));
    assert_eq!(usage.cache_read_tokens, Some(90));
    assert_eq!(usage.cache_creation_tokens, Some(15));
}

#[test]
fn usage_defaults_to_zero_and_none() {
    let usage = parse_usage_value(&json("{}"));
    assert_eq!(
        usage,
        Usage {
            prompt_tokens: 0,
            completion_tokens: 0,
            total_tokens: 0,
            cached_prompt_tokens: None,
            cache_creation_tokens: None,
            cache_read_tokens: None,
        }
    );
    let odd = parse_usage_value(&json(r#"{"prompt_tokens": "12", "total_tokens": 7}"#));
    assert_eq!(odd.prompt_tokens, 0);
    assert_eq!(odd.total_tokens, 7);
}

#[test]
fn usage_keeps_the_low_bits_of_large_counts() {
    let usage = parse_usage_value(&json(r#"{"prompt_tokens": 4294967301}"#));
    assert_eq!(usage.prompt_tokens, 5);
}

#[test]
fn data_payload_skips_comments_and_other_fields() {
    assert_eq!(extract_data_payload(": ping\nevent: x\nid: 4\n"), None);
    assert_eq!(extract_data_payload(""), None);
    assert_eq!(extract_data_payload("data:  padded\n").as_deref(), Some("padded"));
    assert_eq!(extract_data_payload("data:tight").as_deref(), Some("tight"));
    assert_eq!(extract_data_payload("data: a\r\ndata: b\r\n").as_deref(), Some("a\nb"));
    assert_eq!(extract_data_payload("data:\ndata: x\n").as_deref(), Some("\nx"));
}

#[test]
fn finish_reasons_map_by_name() {
    assert!(matches!(map_finish_reason("stop"), FinishReason::Stop));
    assert!(matches!(map_finish_reason("completed"), FinishReason::Stop));
    assert!(matches!(map_finish_reason("length"), FinishReason::Length));
    assert!(matches!(map_finish_reason("done"), FinishReason::Stop));
    assert!(matches!(map_finish_reason("finished"), FinishReason::Stop));
    assert!(matches!(map_finish_reason("tool_calls"), FinishReason::ToolCalls));
    assert!(matches!(map_finish_reason("content_filter"), FinishReason::ContentFilter));
    match map_finish_reason("weird") {
        FinishReason::Error(text) => assert_eq!(text, "weird"),
        other => panic!("unexpected {other:?}"),
    }
}

#[test]
fn tool_call_deltas_build_one_call() {
    let mut builders: Vec<ToolCallBuilder> = Vec::new();
    let first = json(r#"[{"index": 0, "id": "call_9", "function": {"name": "read_file", "arguments": "{\"pa"}}]"#);
    let second = json(r#"[{"index": 0, "function": {"arguments": "th\":\"a\"}"}}]"#);
    update_tool_calls(&mut builders, first.as_array().unwrap());
    update_tool_calls(&mut builders, second.as_array().unwrap());
    assert_eq!(builders.len(), 1);
    let calls = finalize_tool_calls(builders).expect("one call");
    assert_eq!(calls.len(), 1);
    assert_eq!(calls[0].id, "call_9");
    assert_eq!(calls[0].function.name, "read_file");
    assert_eq!(calls[0].function.arguments, "{\"path\":\"a\"}");
}

#[test]
fn tool_call_with_an_empty_name_never_finishes() {
    let builder = ToolCallBuilder::new()
        .apply(&json(r#"{"id": "c", "function": {"name": "", "arguments": "{}"}}"#));
    assert!(builder.finalize(0).is_none());
    let mut builders: Vec<ToolCallBuilder> = Vec::new();
    let deltas = json(r#"[{"index": 0, "function": {"name": ""}},
                          {"index": 1, "function": {"name": "grep_search"}}]"#);
    update_tool_calls(&mut builders, deltas.as_array().unwrap());
    let calls = finalize_tool_calls(builders).expect("one call");
    assert_eq!(calls.len(), 1);
    assert_eq!(calls[0].function.name, "grep_search");
    assert_eq!(calls[0].id, "tool_call_1");
}

#[test]
fn tool_call_without_a_name_never_finishes() {
    let mut builders: Vec<ToolCallBuilder> = Vec::new();
    let deltas = json(r#"[{"index": 1, "function": {"arguments": "{}"}}]"#);
    update_tool_calls(&mut builders, deltas.as_array().unwrap());
    assert_eq!(builders.len(), 2);
    assert!(finalize_tool_calls(builders).is_none());
}

#[test]
fn tool_call_without_an_id_gets_one_from_its_index() {
    let mut builders: Vec<ToolCallBuilder> = Vec::new();
    let deltas = json(r#"[{"index": 2, "function": {"name": "grep_search"}}]"#);
    update_tool_calls(&mut builders, deltas.as_array().unwrap());
    let calls = finalize_tool_calls(builders).expect("one call");
    assert_eq!(calls.len(), 1);
    assert_eq!(calls[0].id, "tool_call_2");
    assert_eq!(calls[0].function.arguments, "{}");
}

#[test]
fn object_arguments_are_serialised() {
    let builder = ToolCallBuilder::new()
        .apply(&json(r#"{"id": "c", "function": {"name": "f", "arguments": {"a": 1}}}"#));
    let call = builder.finalize(0).expect("a call");
    assert_eq!(Json::parse(&call.function.arguments).unwrap().get_u64("a"), Some(1));
}

#[test]
fn reasoning_buffer_drops_repeats_and_blanks() {
    let mut buffer = ReasoningBuffer::new();
    assert_eq!(buffer.push("Thinking").as_deref(), Some("Thinking"));
    assert_eq!(buffer.push("Thinking"), None);
    assert_eq!(buffer.push("   "), None);
    assert_eq!(buffer.push(""), None);
    assert_eq!(buffer.finalize().as_deref(), Some("Thinking"));
}

#[test]
fn reasoning_buffer_separates_words_but_not_punctuation() {
    let mut buffer = ReasoningBuffer::new();
    assert_eq!(buffer.push("First").as_deref(), Some("First"));
    assert_eq!(buffer.push("second   part").as_deref(), Some(" second part"));
    assert_eq!(buffer.push(", third").as_deref(), Some(", third"));
    assert_eq!(buffer.push("(").as_deref(), Some(" ("));
    assert_eq!(buffer.push("inner").as_deref(), Some("inner"));
    assert_eq!(buffer.finalize().as_deref(), Some("First second part, third (inner"));
}

#[test]
fn reasoning_buffer_with_nothing_finishes_empty() {
    assert_eq!(ReasoningBuffer::new().finalize(), None);
    assert_eq!(ReasoningBuffer::normalize_chunk("  a \n\t b  "), "a b");
    assert!(ReasoningBuffer::is_leading_punctuation(".x"));
    assert!(!ReasoningBuffer::is_leading_punctuation("x."));
    assert!(ReasoningBuffer::ends_with_connector("a-"));
    assert!(!ReasoningBuffer::ends_with_connector("a"));
}

#[test]
fn reasoning_trace_reads_text_and_lists() {
    assert_eq!(extract_reasoning_trace(&json(r#""  why  ""#)).as_deref(), Some("why"));
    assert_eq!(extract_reasoning_trace(&json(r#""   ""#)), None);
    assert_eq!(
        extract_reasoning_trace(&json(r#"["a", "a", {"text": "b"}]"#)).as_deref(),
        Some("a\nb")
    );
    assert_eq!(extract_reasoning_trace(&json("12")), None);
}

#[test]
fn final_response_holds_what_was_gathered() {
    let mut reasoning = ReasoningBuffer::new();
    reasoning.push("because");
    let response = finalize_stream_response(
        "answer".to_string(),
        Vec::new(),
        None,
        FinishReason::Length,
        reasoning,
    );
    assert_eq!(response.content.as_deref(), Some("answer"));
    assert!(response.tool_calls.is_none());
    assert!(response.usage.is_none());
    assert!(matches!(response.finish_reason, FinishReason::Length));
    assert_eq!(response.reasoning.as_deref(), Some("because"));

    let empty = finalize_stream_response(
        String::new(),
        Vec::new(),
        None,
        FinishReason::Stop,
        ReasoningBuffer::new(),
    );
    assert!(empty.content.is_none());
    assert!(empty.reasoning.is_none());
}

#[test]
fn decoder_streams_a_plain_turn() {
    let mut decoder = StreamDecoder::new();
    let mut seen: Vec<String> = Vec::new();
    let first = decoder.feed("data: {\"choices\":[{\"delta\":{\"content\":\"Hel\"}}]}\n\nda");
    assert!(first.error.is_none());
    seen.extend(tokens(&first.events));
    let second = decoder.feed(
        "ta: {\"choices\":[{\"delta\":{\"content\":\"lo\"},\"finish_reason\":\"stop\"}],\"usage\":{\"prompt_tokens\":3,\"completion_tokens\":2,\"total_tokens\":5}}\n\n",
    );
    assert!(second.error.is_none());
    seen.extend(tokens(&second.events));
    assert_eq!(seen, vec!["Hel".to_string(), "lo".to_string()]);
    assert!(!decoder.is_done());

    let done = decoder.feed("data: [DONE]\n\n");
    assert!(done.error.is_none());
    assert!(done.events.is_empty());
    assert!(decoder.is_done());
    let after = decoder.feed("data: {\"choices\":[{\"delta\":{\"content\":\"x\"}}]}\n\n");
    assert!(after.events.is_empty());
    assert!(after.error.is_none());
    let last = decoder.finish();
    assert!(last.error.is_none());
    assert_eq!(last.events.len(), 1);
    match &last.events[0] {
        LLMStreamEvent::Completed { response } => {
            assert_eq!(response.content.as_deref(), Some("Hello"));
            assert!(matches!(response.finish_reason, FinishReason::Stop));
            assert_eq!(response.usage.map(|usage| usage.total_tokens), Some(5));
            assert!(response.tool_calls.is_none());
        }
        other => panic!("unexpected {other:?}"),
    }
}

#[test]
fn decoder_completes_at_the_end_of_the_stream() {
    let mut decoder = StreamDecoder::new();
    let step = decoder.feed("data: {\"choices\":[{\"delta\":{\"content\":\"tail\"}}]}");
    assert!(step.events.is_empty());
    let last = decoder.finish();
    assert!(last.error.is_none());
    assert_eq!(tokens(&last.events), vec!["tail".to_string()]);
    assert!(matches!(last.events.last(), Some(LLMStreamEvent::Completed { .. })));
}

#[test]
fn decoder_accepts_carriage_return_framing() {
    let mut decoder = StreamDecoder::new();
    let step = decoder.feed("data: {\"choices\":[{\"delta\":{\"content\":\"a\"}}]}\r\n\r\ndata: {\"choices\":[{\"delta\":{\"content\":\"b\"}}]}\r\n\r\n");
    assert_eq!(tokens(&step.events), vec!["a".to_string(), "b".to_string()]);
}

#[test]
fn decoder_fails_on_a_malformed_payload() {
    let mut decoder = StreamDecoder::new();
    let step = decoder.feed("data: {not json}\n\n");
    assert!(step.events.is_empty());
    match step.error {
        Some(LLMError::Provider(text)) => assert!(text.contains("OpenRouter")),
        other => panic!("unexpected {other:?}"),
    }
    let after = decoder.feed("data: [DONE]\n\n");
    assert!(after.events.is_empty());
    assert!(after.error.is_none());
    let end = decoder.finish();
    assert!(end.events.is_empty());
    assert!(end.error.is_none());
}

#[test]
fn decoder_gathers_a_tool_call_over_chunks() {
    let mut decoder = StreamDecoder::new();
    decoder.feed("data: {\"choices\":[{\"delta\":{\"tool_calls\":[{\"index\":0,\"id\":\"c1\",\"function\":{\"name\":\"read_file\",\"arguments\":\"{\\\"path\\\":\"}}]}}]}\n\n");
    decoder.feed("data: {\"choices\":[{\"delta\":{\"tool_calls\":[{\"index\":0,\"function\":{\"arguments\":\"\\\"a.rs\\\"}\"}}]},\"finish_reason\":\"tool_calls\"}]}\n\n");
    decoder.feed("data: [DONE]\n\n");
    let last = decoder.finish();
    match &last.events[0] {
        LLMStreamEvent::Completed { response } => {
            let calls = response.tool_calls.as_ref().expect("a tool call");
            assert_eq!(calls.len(), 1);
            assert_eq!(calls[0].id, "c1");
            assert_eq!(calls[0].function.arguments, "{\"path\":\"a.rs\"}");
            assert!(matches!(response.finish_reason, FinishReason::ToolCalls));
            assert!(response.content.is_none());
        }
        other => panic!("unexpected {other:?}"),
    }
}

#[test]
fn decoder_emits_reasoning_once() {
    let mut decoder = StreamDecoder::new();
    let first = decoder.feed("data: {\"choices\":[{\"delta\":{\"reasoning\":\"plan\"}}]}\n\n");
    let second = decoder.feed("data: {\"choices\":[{\"delta\":{\"reasoning\":\"plan\"}}]}\n\n");
    let reasoning = |events: &[LLMStreamEvent]| {
        events
            .iter()
            .filter(|event| matches!(event, LLMStreamEvent::Reasoning { .. }))
            .count()
    };
    assert_eq!(reasoning(&first.events), 1);
    assert_eq!(reasoning(&second.events), 0);
}

#[test]
fn tool_calls_are_placed_by_the_index_of_the_server() {
    let mut builders: Vec<ToolCallBuilder> = Vec::new();
    let first = json(r#"[{"index": 1, "id": "b", "function": {"name": "second", "arguments": "{"}}]"#);
    let second = json(r#"[{"index": 0, "id": "a", "function": {"name": "first"}},
                          {"index": 1, "function": {"arguments": "}"}}]"#);
    update_tool_calls(&mut builders, first.as_array().unwrap());
    update_tool_calls(&mut builders, second.as_array().unwrap());
    let calls = finalize_tool_calls(builders).expect("two calls");
    assert_eq!(calls.len(), 2);
    assert_eq!(calls[0].id, "a");
    assert_eq!(calls[0].function.arguments, "{}");
    assert_eq!(calls[1].id, "b");
    assert_eq!(calls[1].function.arguments, "{}");
    let mut unplaced: Vec<ToolCallBuilder> = Vec::new();
    let bare = json(r#"[{"id": "x", "function": {"name": "f"}}, {"id": "y", "function": {"name": "g"}}]"#);
    update_tool_calls(&mut unplaced, bare.as_array().unwrap());
    assert_eq!(unplaced.len(), 2);
    assert_eq!(unplaced[1].id.as_deref(), Some("y"));
}

#[test]
fn punctuation_joins_without_a_space() {
    let mut buffer = ReasoningBuffer::new();
    assert_eq!(buffer.push("Hello").as_deref(), Some("Hello"));
    assert_eq!(buffer.push(",").as_deref(), Some(","));
    assert_eq!(buffer.finalize().as_deref(), Some("Hello,"));
}

#[test]
fn data_lines_are_joined_and_the_end_marker_is_trimmed() {
    assert_eq!(extract_data_payload("data: a\ndata: b\n").as_deref(), Some("a\nb"));
    let mut decoder = StreamDecoder::new();
    let step = decoder.feed("data:   [DONE]  \n\n");
    assert!(step.events.is_empty());
    assert!(step.error.is_none());
    assert!(decoder.is_done());
}
