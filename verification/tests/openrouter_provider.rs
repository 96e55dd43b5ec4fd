use vtcode_core::json::Json;
use vtcode_core::llm::error_display::format_llm_error;
use vtcode_core::llm::provider::{
    FinishReason, LLMError, LLMRequest, Message, MessageRole, ToolCall, ToolChoice, ToolDefinition,
};
use vtcode_core::llm::providers::openrouter::provider::{
    extract_content_text, parse_tool_choice, OpenRouterProvider, SendStep,
};
use vtcode_core::llm::providers::openrouter::request::{
    convert_to_openrouter_format, convert_to_openrouter_responses_format,
};
use vtcode_core::llm::providers::openrouter::response::{
    parse_openrouter_response, parse_responses_api_response,
};

fn json(text: &str) -> Json {
    Json::parse(text).expect("the text of a test is JSON")
}

fn request(model: &str, messages: Vec<Message>) -> LLMRequest {
    LLMRequest {
        messages,
        system_prompt: None,
        tools: None,
        model: model.to_string(),
        max_tokens: None,
        temperature: None,
        stream: false,
        tool_choice: None,
        parallel_tool_calls: None,
        reasoning_effort: None,
    }
}

fn read_file_tool() -> ToolDefinition {
    ToolDefinition::function(
        "read_file".to_string(),
        "Read a file".to_string(),
        json(r#"{"type": "object"}"#),
    )
}

fn provider() -> OpenRouterProvider {
    OpenRouterProvider::with_model("key".to_string(), "x-ai/grok-4-fast:free".to_string())
}

#[test]
fn error_text_names_the_provider() {
    assert_eq!(format_llm_error("OpenRouter", "boom"), "[OpenRouter] boom");
}

#[test]
fn chat_payload_holds_model_messages_and_options() {
    let mut req = request("m/one", vec![Message::user("hi".to_string())]);
    req.system_prompt = Some("be brief".to_string());
    req.max_tokens = Some(64);
    req.tools = Some(vec![read_file_tool()]);
    req.tool_choice = Some(ToolChoice::auto());
    req.stream = true;
    let payload = convert_to_openrouter_format("fallback/model", &req).expect("a payload");
    assert_eq!(payload.get_str("model"), Some("m/one"));
    assert_eq!(payload.get("stream").and_then(Json::as_bool), Some(true));
    assert_eq!(payload.get_u64("max_tokens"), Some(64));
    let messages = payload.get("messages").and_then(Json::as_array).expect("messages");
    assert_eq!(messages.len(), 2);
    assert_eq!(messages[0].get_str("role"), Some("system"));
    assert_eq!(messages[0].get_str("content"), Some("be brief"));
    assert_eq!(messages[1].get_str("role"), Some("user"));
    assert_eq!(messages[1].get_str("content"), Some("hi"));
    let tools = payload.get("tools").and_then(Json::as_array).expect("tools");
    assert_eq!(tools.len(), 1);
    assert_eq!(tools[0].get_str("type"), Some("function"));
    assert_eq!(tools[0].get("function").and_then(|f| f.get_str("name")), Some("read_file"));
    assert_eq!(payload.get_str("tool_choice"), Some("auto"));
    assert!(payload.get("reasoning").is_none());
}

#[test]
fn chat_payload_uses_the_provider_model_for_a_blank_one() {
    let req = request("  ", vec![Message::user("hi".to_string())]);
    let payload = convert_to_openrouter_format("fallback/model", &req).expect("a payload");
    assert_eq!(payload.get_str("model"), Some("fallback/model"));
}

#[test]
fn chat_payload_refuses_a_request_without_messages() {
    let req = request("m", Vec::new());
    match convert_to_openrouter_format("m", &req) {
        Err(LLMError::InvalidRequest(text)) => {
            assert_eq!(text, "[OpenRouter] No messages provided")
        }
        other => panic!("unexpected {other:?}"),
    }
}

#[test]
fn chat_payload_carries_tool_calls_and_answers() {
    let call = ToolCall::function("c1".to_string(), "read_file".to_string(), "{}".to_string());
    let req = request(
        "m",
        vec![
            Message::assistant_with_tools(String::new(), vec![call]),
            Message::tool_response("c1".to_string(), "done".to_string()),
        ],
    );
    let payload = convert_to_openrouter_format("m", &req).expect("a payload");
    let messages = payload.get("messages").and_then(Json::as_array).expect("messages");
    let calls = messages[0].get("tool_calls").and_then(Json::as_array).expect("tool calls");
    assert_eq!(calls[0].get_str("id"), Some("c1"));
    assert_eq!(calls[0].get("function").and_then(|f| f.get_str("name")), Some("read_file"));
    assert_eq!(messages[1].get_str("role"), Some("tool"));
    assert_eq!(messages[1].get_str("tool_call_id"), Some("c1"));
}

#[test]
fn responses_payload_holds_input_entries() {
    let mut req = request("openai/gpt-5-codex", vec![Message::user("hi".to_string())]);
    req.system_prompt = Some("rules".to_string());
    req.max_tokens = Some(10);
    let payload = convert_to_openrouter_responses_format("other", &req).expect("a payload");
    assert_eq!(payload.get_str("model"), Some("openai/gpt-5-codex"));
    assert_eq!(payload.get_u64("max_output_tokens"), Some(10));
    let input = payload.get("input").and_then(Json::as_array).expect("input");
    assert!(input.len() >= 2);
    assert_eq!(input[0].get_str("role"), Some("developer"));
    let last = &input[input.len() - 1];
    assert_eq!(last.get_str("role"), Some("user"));
    let parts = last.get("content").and_then(Json::as_array).expect("parts");
    assert_eq!(parts[0].get_str("type"), Some("input_text"));
    assert_eq!(parts[0].get_str("text"), Some("hi"));
}

#[test]
fn tool_choice_has_its_wire_forms() {
    assert_eq!(ToolChoice::auto().to_openai_format().as_str(), Some("auto"));
    assert_eq!(ToolChoice::none().to_openai_format().as_str(), Some("none"));
    assert_eq!(ToolChoice::any().to_openai_format().as_str(), Some("required"));
    let specific = ToolChoice::function("f".to_string()).to_openai_format();
    assert_eq!(specific.get_str("type"), Some("function"));
    assert_eq!(specific.get("function").and_then(|f| f.get_str("name")), Some("f"));
    assert!(matches!(parse_tool_choice(&json(r#""auto""#)), Some(ToolChoice::Auto)));
    assert!(matches!(parse_tool_choice(&json(r#""none""#)), Some(ToolChoice::Off)));
    assert!(matches!(parse_tool_choice(&json(r#""required""#)), Some(ToolChoice::Any)));
    match parse_tool_choice(&json(r#"{"type": "function", "function": {"name": "g"}}"#)) {
        Some(ToolChoice::Specific(name)) => assert_eq!(name, "g"),
        other => panic!("unexpected {other:?}"),
    }
    assert!(parse_tool_choice(&json("3")).is_none());
}

#[test]
fn content_text_reads_strings_and_parts() {
    assert_eq!(extract_content_text(&json(r#""plain""#)), "plain");
    assert_eq!(
        extract_content_text(&json(r#"[{"type": "text", "text": "a"}, {"text": "b"}, 4]"#)),
        "ab"
    );
    assert_eq!(extract_content_text(&json("null")), "");
}

#[test]
fn validation_names_each_defect() {
    let provider = provider();
    let empty = request("m", Vec::new());
    match provider.validate_request(&empty) {
        Err(LLMError::InvalidRequest(text)) => {
            assert_eq!(text, "[OpenRouter] Messages cannot be empty")
        }
        other => panic!("unexpected {other:?}"),
    }
    let no_model = request(" ", vec![Message::user("hi".to_string())]);
    match provider.validate_request(&no_model) {
        Err(LLMError::InvalidRequest(text)) => {
            assert_eq!(text, "[OpenRouter] Model must be provided")
        }
        other => panic!("unexpected {other:?}"),
    }
    let orphan = request(
        "m",
        vec![Message {
            role: MessageRole::Tool,
            content: "x".to_string(),
            tool_calls: None,
            tool_call_id: None,
        }],
    );
    assert!(matches!(provider.validate_request(&orphan), Err(LLMError::InvalidRequest(_))));
    let fine = request("m", vec![Message::user("hi".to_string())]);
    assert!(provider.validate_request(&fine).is_ok());
}

#[test]
fn chat_response_is_read() {
    let body = json(
        r#"{"choices": [{"message": {"content": "Hello", "reasoning": "why",
            "tool_calls": [{"id": "c1", "type": "function",
                            "function": {"name": "read_file", "arguments": "{\"path\":\"a\"}"}}]},
            "finish_reason": "tool_calls"}],
            "usage": {"prompt_tokens": 1, "completion_tokens": 2, "total_tokens": 3}}"#,
    );
    let response = parse_openrouter_response(&body).expect("a response");
    assert_eq!(response.content.as_deref(), Some("Hello"));
    assert_eq!(response.reasoning.as_deref(), Some("why"));
    let calls = response.tool_calls.expect("tool calls");
    assert_eq!(calls.len(), 1);
    assert_eq!(calls[0].function.name, "read_file");
    assert!(matches!(response.finish_reason, FinishReason::ToolCalls));
    assert_eq!(response.usage.map(|usage| usage.total_tokens), Some(3));
}

#[test]
fn chat_response_without_choices_is_refused() {
    match parse_openrouter_response(&json(r#"{"choices": []}"#)) {
        Err(LLMError::Provider(text)) => assert!(text.starts_with("[OpenRouter] ")),
        other => panic!("unexpected {other:?}"),
    }
    assert!(matches!(
        parse_openrouter_response(&json(r#"{"choices": [{}]}"#)),
        Err(LLMError::Provider(_))
    ));
}

#[test]
fn responses_api_answer_is_read() {
    let body = json(
        r#"{"output": [{"type": "message", "content": [
                {"type": "output_text", "text": "Hi"},
                {"type": "reasoning", "text": "because"}]}],
            "stop_reason": "stop"}"#,
    );
    let response = parse_responses_api_response(&body).expect("a response");
    assert_eq!(response.content.as_deref(), Some("Hi"));
    assert!(response.tool_calls.is_none());
    assert!(matches!(
        parse_responses_api_response(&json(r#"{"nothing": 1}"#)),
        Err(LLMError::Provider(_))
    ));
}

#[test]
fn provider_defaults_and_capabilities() {
    let default = OpenRouterProvider::new("k".to_string());
    assert_eq!(default.model, "x-ai/grok-4-fast:free");
    assert_eq!(default.name(), "openrouter");
    assert!(default.supports_streaming());
    let configured = OpenRouterProvider::from_config(
        None,
        Some("a/b".to_string()),
        Some("https://example.test/v1".to_string()),
        None,
    );
    assert_eq!(configured.api_key, "");
    assert_eq!(configured.model, "a/b");
    assert_eq!(configured.base_url, "https://example.test/v1");
    assert!(OpenRouterProvider::is_gpt5_codex_model("openai/gpt-5-codex"));
    assert!(!OpenRouterProvider::is_gpt5_codex_model("openai/gpt-5"));
}

#[test]
fn payload_goes_to_the_wire_of_the_model() {
    let provider = provider();
    let chat = request("m", vec![Message::user("hi".to_string())]);
    let (payload, url) = provider.build_provider_payload(&chat, Some(true)).expect("a payload");
    assert!(url.ends_with("/chat/completions"));
    assert_eq!(payload.get("stream").and_then(Json::as_bool), Some(true));
    let codex = request("openai/gpt-5-codex", vec![Message::user("hi".to_string())]);
    let (payload, url) = provider.build_provider_payload(&codex, None).expect("a payload");
    assert!(url.ends_with("/responses"));
    assert!(payload.get("input").is_some());
}

#[test]
fn refused_tools_are_retried_once_without_tools() {
    let provider = provider();
    let mut req = request("m", vec![Message::user("hi".to_string())]);
    req.tools = Some(vec![read_file_tool()]);
    req.tool_choice = Some(ToolChoice::auto());
    req.parallel_tool_calls = Some(true);
    let body = "{\"error\":\"No endpoints found that support tool use\"}";
    assert!(OpenRouterProvider::is_tool_unsupported_error(404, body));
    assert!(!OpenRouterProvider::is_tool_unsupported_error(400, body));
    match provider.after_first_answer(&req, None, 404, "404 Not Found", body) {
        SendStep::Retry { payload, url } => {
            assert!(url.ends_with("/chat/completions"));
            assert!(payload.get("tools").is_none());
            assert_eq!(payload.get_str("tool_choice"), Some("none"));
            assert!(payload.get("parallel_tool_calls").is_none());
            let messages = payload.get("messages").and_then(Json::as_array).expect("messages");
            assert_eq!(messages.len(), 1);
        }
        other => panic!("unexpected {other:?}"),
    }
    assert!(matches!(
        OpenRouterProvider::after_fallback_answer("404 Not Found", body, 200, "200 OK", "{}"),
        SendStep::Deliver
    ));
    match OpenRouterProvider::after_fallback_answer("404 Not Found", "first", 500, "500 Oops", "second") {
        SendStep::Fail(LLMError::Provider(text)) => assert_eq!(
            text,
            "[OpenRouter] HTTP 404 Not Found: first | Tool fallback failed with HTTP 500 Oops: second"
        ),
        other => panic!("unexpected {other:?}"),
    }
}

#[test]
fn answers_without_tools_are_not_retried() {
    let provider = provider();
    let req = request("m", vec![Message::user("hi".to_string())]);
    let body = "No endpoints found that support tool use";
    match provider.after_first_answer(&req, None, 404, "404 Not Found", body) {
        SendStep::Fail(LLMError::Provider(text)) => {
            assert_eq!(text, format!("[OpenRouter] HTTP 404 Not Found: {body}"))
        }
        other => panic!("unexpected {other:?}"),
    }
    assert!(matches!(
        provider.after_first_answer(&req, None, 429, "429", "slow down"),
        SendStep::Fail(LLMError::RateLimit)
    ));
    assert!(matches!(
        provider.after_first_answer(&req, None, 500, "500", "quota exceeded"),
        SendStep::Fail(LLMError::RateLimit)
    ));
    assert!(matches!(
        provider.after_first_answer(&req, None, 200, "200 OK", "{}"),
        SendStep::Deliver
    ));
}

#[test]
fn tool_free_request_keeps_the_rest() {
    let mut req = request("m", vec![Message::user("hi".to_string())]);
    req.tools = Some(vec![read_file_tool()]);
    req.max_tokens = Some(5);
    assert!(OpenRouterProvider::request_includes_tools(&req));
    let bare = OpenRouterProvider::tool_free_request(&req);
    assert!(!OpenRouterProvider::request_includes_tools(&bare));
    assert!(bare.tools.is_none());
    assert!(matches!(bare.tool_choice, Some(ToolChoice::Off)));
    assert_eq!(bare.max_tokens, Some(5));
    assert_eq!(bare.messages.len(), 1);
}

#[test]
fn generated_body_is_parsed_or_refused() {
    let provider = provider();
    let response = provider
        .parse_generate_body(r#"{"choices": [{"message": {"content": "ok"}, "finish_reason": "stop"}]}"#)
        .expect("a response");
    assert_eq!(response.content.as_deref(), Some("ok"));
    assert!(matches!(provider.parse_generate_body("not json"), Err(LLMError::Provider(_))));
}

#[test]
fn client_prompt_is_a_request_or_plain_text() {
    let provider = provider();
    let plain = provider.parse_client_prompt("just text");
    assert_eq!(plain.messages.len(), 1);
    assert_eq!(plain.messages[0].content, "just text");
    assert_eq!(plain.model, "x-ai/grok-4-fast:free");
    let chat = provider.parse_client_prompt(
        r#"{"model": "a/b", "messages": [{"role": "system", "content": "s"},
            {"role": "user", "content": "u"}], "max_tokens": 9, "stream": true}"#,
    );
    assert_eq!(chat.model, "a/b");
    assert_eq!(chat.system_prompt.as_deref(), Some("s"));
    assert_eq!(chat.messages.len(), 1);
    assert_eq!(chat.messages[0].content, "u");
    assert_eq!(chat.max_tokens, Some(9));
    assert!(chat.stream);
}
