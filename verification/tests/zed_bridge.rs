use vtcode_core::acp::zed::{
    completion_update, parse_resource_path, parse_tool_path, permission_options, permission_report,
    plan_tool_call, read_file_failure, read_file_request, read_file_success, record_tool_results,
    render_context_block, resolve_prompt, stop_reason_from_finish, tool_call_result,
    tool_disable_notice, truncate_text, unavailable_results, Chunk, ContentBlock, LinkRead,
    PermissionOptionKind, PermissionOutcome, ProviderCapabilities, ResponseStep, SessionData,
    SessionStore, StopReason, SupportedTool, ToolCallStatus, ToolCallStep, ToolDisableReason,
    ToolExecutionReport, ToolKind, ToolRegistry, TurnState, ZedAgent,
};
use vtcode_core::json::Json;
use vtcode_core::llm::provider::{
    FinishReason, LLMResponse, LLMStreamEvent, MessageRole, ToolCall, ToolChoice,
};

fn json(text: &str) -> Json {
    Json::parse(text).expect("the text of a test is JSON")
}

fn agent(read_file_enabled: bool) -> ZedAgent {
    ZedAgent {
        read_file_enabled,
        system_prompt: "You are helpful".to_string(),
        provider: "openrouter".to_string(),
        model: "x-ai/grok-4-fast:free".to_string(),
        reasoning_effort: "medium".to_string(),
        tool_registry: ToolRegistry::new(read_file_enabled),
    }
}

fn caps(streaming: bool, tools: bool) -> ProviderCapabilities {
    ProviderCapabilities {
        supports_streaming: streaming,
        supports_reasoning_effort: false,
        supports_tools: tools,
    }
}

fn response(content: Option<&str>, calls: Option<Vec<ToolCall>>, finish: FinishReason) -> LLMResponse {
    LLMResponse {
        content: content.map(|c| c.to_string()),
        tool_calls: calls,
        usage: None,
        finish_reason: finish,
        reasoning: None,
    }
}

fn chunk_texts(chunks: &[Chunk]) -> Vec<(bool, String)> {
    chunks
        .iter()
        .map(|chunk| match chunk {
            Chunk::Message(text) => (true, text.clone()),
            Chunk::Thought(text) => (false, text.clone()),
        })
        .collect()
}

fn read_call(id: &str, arguments: &str) -> ToolCall {
    ToolCall::function(id.to_string(), "read_file".to_string(), arguments.to_string())
}

#[test]
fn registry_holds_read_file_when_enabled() {
    let registry = ToolRegistry::new(true);
    assert!(!registry.is_empty());
    let definitions = registry.definitions();
    assert_eq!(definitions.len(), 1);
    assert_eq!(definitions[0].name, "read_file");
    assert_eq!(registry.lookup("read_file"), Some(SupportedTool::ReadFile));
    assert_eq!(registry.lookup("write_file"), None);
    assert!(ToolRegistry::new(false).is_empty());
    assert_eq!(SupportedTool::ReadFile.kind(), ToolKind::Fetch);
    assert_eq!(SupportedTool::ReadFile.function_name(), "read_file");
}

#[test]
fn title_names_the_file() {
    let registry = ToolRegistry::new(true);
    assert_eq!(
        registry.render_title(SupportedTool::ReadFile, &json(r#"{"path": "/a/b.rs"}"#)),
        "Read file /a/b.rs"
    );
    assert_eq!(
        registry.render_title(SupportedTool::ReadFile, &json(r#"{"uri": "file:///x"}"#)),
        "Read file file:///x"
    );
    assert_eq!(registry.render_title(SupportedTool::ReadFile, &json("{}")), "Read file");
}

#[test]
fn reports_carry_an_envelope() {
    let failure = ToolExecutionReport::failure("read_file", "nope");
    assert_eq!(failure.status, ToolCallStatus::Failed);
    let envelope = json(&failure.llm_response);
    assert_eq!(envelope.get_str("status"), Some("error"));
    assert_eq!(envelope.get_str("tool"), Some("read_file"));
    assert_eq!(envelope.get_str("message"), Some("nope"));

    let success = read_file_success("/a.rs", "fn main() {}");
    assert_eq!(success.status, ToolCallStatus::Completed);
    let envelope = json(&success.llm_response);
    assert_eq!(envelope.get_str("status"), Some("success"));
    assert_eq!(envelope.get_str("path"), Some("/a.rs"));
    assert_eq!(envelope.get_str("content"), Some("fn main() {}"));
    assert_eq!(envelope.get("truncated").and_then(Json::as_bool), Some(false));

    let failed = read_file_failure("gone");
    assert_eq!(failed.status, ToolCallStatus::Failed);
    assert_eq!(
        json(&failed.llm_response).get_str("message"),
        Some("Unable to read file: gone")
    );
}

#[test]
fn long_content_is_cut() {
    let (short, cut) = truncate_text("abc");
    assert_eq!(short, "abc");
    assert!(!cut);
    let long = "é".repeat(40_000);
    let (kept, cut) = truncate_text(&long);
    assert!(cut);
    assert_eq!(kept.chars().count(), 32_768);
    let report = read_file_success("/big", &long);
    assert_eq!(json(&report.llm_response).get("truncated").and_then(Json::as_bool), Some(true));
}

#[test]
fn permission_offers_allow_and_reject() {
    let registry = ToolRegistry::new(true);
    let args = json(r#"{"path": "/a"}"#);
    let options = permission_options(&registry, SupportedTool::ReadFile, Some(&args));
    assert_eq!(options.len(), 2);
    assert_eq!(options[0].id, "allow-once");
    assert_eq!(options[0].kind, PermissionOptionKind::AllowOnce);
    assert_eq!(options[1].id, "reject-once");
    assert_eq!(options[1].kind, PermissionOptionKind::RejectOnce);
}

#[test]
fn permission_outcomes_decide_the_call() {
    let tool = SupportedTool::ReadFile;
    assert!(permission_report(tool, &PermissionOutcome::Selected("allow-once".to_string())).is_none());
    assert!(permission_report(tool, &PermissionOutcome::Unreachable).is_none());
    let denied = permission_report(tool, &PermissionOutcome::Selected("reject-once".to_string()))
        .expect("a report");
    assert_eq!(denied.status, ToolCallStatus::Failed);
    assert_eq!(
        json(&denied.llm_response).get_str("message"),
        Some("Tool execution cancelled: permission denied by the user")
    );
    let unknown = permission_report(tool, &PermissionOutcome::Selected("other".to_string()));
    assert!(unknown.is_some());
    let cancelled = permission_report(tool, &PermissionOutcome::Cancelled).expect("a report");
    assert_eq!(
        json(&cancelled.llm_response).get_str("message"),
        Some("Tool execution cancelled: permission request interrupted")
    );
}

#[test]
fn resource_paths_are_resolved_by_scheme() {
    assert_eq!(parse_resource_path(""), None);
    assert_eq!(parse_resource_path("/abs/file.rs").as_deref(), Some("/abs/file.rs"));
    assert_eq!(parse_resource_path("zed://project/src/a%20b.rs").as_deref(), Some("/src/a b.rs"));
    assert_eq!(parse_resource_path("zed-fs://host/x/y").as_deref(), Some("/x/y"));
    assert_eq!(parse_resource_path("https://example.com/x"), None);
    assert_eq!(parse_resource_path("relative/path"), None);
    assert_eq!(parse_resource_path("file:///tmp/a%20b.txt").as_deref(), Some("/tmp/a b.txt"));
}

#[test]
fn tool_path_prefers_the_path_argument() {
    assert_eq!(parse_tool_path(&json(r#"{"path": "/p", "uri": "/u"}"#)).as_deref(), Ok("/p"));
    assert_eq!(parse_tool_path(&json(r#"{"path": "", "uri": "/u"}"#)).as_deref(), Ok("/u"));
    assert_eq!(
        parse_tool_path(&json(r#"{"uri": "https://example.com"}"#)).err().as_deref(),
        Some("Unable to resolve URI provided to read_file")
    );
    assert_eq!(
        parse_tool_path(&json("{}")).err().as_deref(),
        Some("Tool execution failed: missing path or uri")
    );
}

#[test]
fn read_request_takes_line_and_limit() {
    let request = read_file_request(&json(r#"{"path": "/p", "line": 3, "limit": 20}"#)).unwrap();
    assert_eq!(request.path, "/p");
    assert_eq!(request.line, Some(3));
    assert_eq!(request.limit, Some(20));
    let bare = read_file_request(&json(r#"{"path": "/p", "line": "3"}"#)).unwrap();
    assert_eq!(bare.line, None);
    assert_eq!(bare.limit, None);
    assert!(read_file_request(&json("{}")).is_err());
}

#[test]
fn context_blocks_end_in_a_line_feed() {
    assert_eq!(
        render_context_block("a.rs", "file:///a.rs", Some("body")),
        "<context uri=\"file:///a.rs\" name=\"a.rs\">\nbody\n</context>"
    );
    assert_eq!(
        render_context_block("a.rs", "file:///a.rs", Some("body\n")),
        "<context uri=\"file:///a.rs\" name=\"a.rs\">\nbody\n</context>"
    );
    assert_eq!(render_context_block("a.rs", "u", None), "Resource a.rs (u)");
}

#[test]
fn prompt_blocks_are_joined_line_by_line() {
    let blocks = vec![
        ContentBlock::Text { text: "Look at".to_string() },
        ContentBlock::ResourceLink { uri: "file:///a.rs".to_string(), name: "a.rs".to_string() },
        ContentBlock::ResourceLink { uri: "file:///b.rs".to_string(), name: "b.rs".to_string() },
        ContentBlock::Image { uri: None, mime_type: "image/png".to_string() },
        ContentBlock::Audio { mime_type: "audio/wav".to_string() },
    ];
    let reads = vec![LinkRead::Content("fn a() {}".to_string()), LinkRead::Failed];
    let prompt = resolve_prompt(&blocks, &reads);
    assert_eq!(
        prompt,
        "Look at\n<context uri=\"file:///a.rs\" name=\"a.rs\">\nfn a() {}\n</context>\n\
         Resource unavailable b.rs (file:///b.rs)\nResource image (image/png)\nResource audio (audio/wav)"
    );
    assert_eq!(resolve_prompt(&[], &[]), "");
}

#[test]
fn tools_off_is_said_once_per_session() {
    let agent = agent(true);
    let mut session = SessionData::new();
    let first = agent.begin_turn(&mut session, "hi".to_string(), caps(true, false));
    assert_eq!(
        first.notice.as_deref(),
        Some("Skipping read_file tool: model x-ai/grok-4-fast:free on openrouter does not support function calling.")
    );
    assert!(!first.tools_allowed);
    assert!(first.allow_streaming);
    let second = agent.begin_turn(&mut session, "again".to_string(), caps(true, false));
    assert!(second.notice.is_none());
    assert_eq!(session.messages.len(), 2);

    let mut other = SessionData::new();
    let enabled = agent.begin_turn(&mut other, "hi".to_string(), caps(true, true));
    assert!(enabled.notice.is_none());
    assert!(enabled.tools_allowed);
    assert!(!enabled.allow_streaming);
}

#[test]
fn notice_words() {
    assert_eq!(
        tool_disable_notice(&ToolDisableReason::Config),
        "Skipping read_file tool: disabled via [acp.zed.tools]."
    );
}

#[test]
fn request_of_a_turn_follows_the_plan() {
    let agent = agent(true);
    let mut session = SessionData::new();
    let plan = agent.begin_turn(&mut session, "hi".to_string(), caps(true, true));
    let request = agent.build_request(&session, &plan);
    assert_eq!(request.messages.len(), 2);
    assert_eq!(request.messages[0].role, MessageRole::System);
    assert_eq!(request.messages[1].role, MessageRole::User);
    assert_eq!(request.messages[1].content, "hi");
    assert_eq!(request.tools.as_ref().map(|tools| tools.len()), Some(1));
    assert!(matches!(request.tool_choice, Some(ToolChoice::Auto)));
    assert!(!request.stream);
    assert!(request.reasoning_effort.is_none());
    assert_eq!(request.model, "x-ai/grok-4-fast:free");

    let mut plain = SessionData::new();
    let plan = agent.begin_turn(&mut plain, "hi".to_string(), caps(true, false));
    let request = agent.build_request(&plain, &plan);
    assert!(request.tools.is_none());
    assert!(matches!(request.tool_choice, Some(ToolChoice::Off)));
    assert!(request.stream);
}

#[test]
fn plain_streaming_turn_ends_with_the_answer_in_the_history() {
    let mut session = SessionData::new();
    let agent = agent(false);
    agent.begin_turn(&mut session, "hi".to_string(), caps(true, false));
    let mut turn = TurnState::new();
    let mut sent = Vec::new();
    for delta in ["Hel", "", "lo"] {
        sent.extend(turn.on_stream_event(LLMStreamEvent::Token { delta: delta.to_string() }, false));
    }
    sent.extend(turn.on_stream_event(LLMStreamEvent::Reasoning { delta: "hm".to_string() }, false));
    sent.extend(turn.on_stream_event(
        LLMStreamEvent::Completed { response: response(Some("Hello"), None, FinishReason::Stop) },
        false,
    ));
    assert_eq!(
        chunk_texts(&sent),
        vec![(true, "Hel".to_string()), (true, "lo".to_string()), (false, "hm".to_string())]
    );
    assert!(turn.finished);
    let stop = turn.finalize_turn(&mut session);
    assert_eq!(stop, StopReason::EndTurn);
    assert_eq!(session.messages.len(), 2);
    assert_eq!(session.messages[1].role, MessageRole::Assistant);
    assert_eq!(session.messages[1].content, "Hello");
}

#[test]
fn completed_response_supplies_the_answer_when_no_token_came() {
    let mut turn = TurnState::new();
    let sent = turn.on_stream_event(
        LLMStreamEvent::Completed { response: response(Some("whole"), None, FinishReason::Length) },
        false,
    );
    assert_eq!(chunk_texts(&sent), vec![(true, "whole".to_string())]);
    let mut session = SessionData::new();
    assert_eq!(turn.finalize_turn(&mut session), StopReason::MaxTokens);
    assert_eq!(session.messages.len(), 1);
}

#[test]
fn cancelled_turn_leaves_no_assistant_message() {
    let mut session = SessionData::new();
    let mut turn = TurnState::new();
    turn.on_stream_event(LLMStreamEvent::Token { delta: "par".to_string() }, false);
    session.cancel();
    let sent = turn.on_stream_event(LLMStreamEvent::Token { delta: "tial".to_string() }, session.cancel_flag);
    assert!(sent.is_empty());
    assert!(turn.finished);
    let late = turn.on_stream_event(LLMStreamEvent::Token { delta: "x".to_string() }, false);
    assert!(late.is_empty());
    assert_eq!(turn.finalize_turn(&mut session), StopReason::Cancelled);
    assert!(session.messages.is_empty());
}

#[test]
fn cancel_flag_is_checked_before_a_round() {
    let mut turn = TurnState::new();
    assert!(turn.check_cancelled(false));
    assert!(!turn.check_cancelled(true));
    assert_eq!(turn.stop_reason, StopReason::Cancelled);
    let agent = agent(true);
    let mut session = SessionData::new();
    session.cancel();
    agent.begin_turn(&mut session, "hi".to_string(), caps(false, true));
    assert!(!session.cancel_flag);
}

#[test]
fn empty_answer_is_not_recorded() {
    let mut session = SessionData::new();
    let mut turn = TurnState::new();
    let step = turn.on_response(&mut session, response(None, None, FinishReason::Stop), true);
    match step {
        ResponseStep::Finish(chunks) => assert!(chunks.is_empty()),
        other => panic!("unexpected {other:?}"),
    }
    assert_eq!(turn.finalize_turn(&mut session), StopReason::EndTurn);
    assert!(session.messages.is_empty());
}

#[test]
fn tool_turn_runs_the_call_and_answers_in_a_second_round() {
    let agent = agent(true);
    let mut session = SessionData::new();
    let plan = agent.begin_turn(&mut session, "read it".to_string(), caps(true, true));
    let mut turn = TurnState::new();
    let call = read_call("c1", r#"{"path": "/a.rs"}"#);
    let step = turn.on_response(
        &mut session,
        response(None, Some(vec![call]), FinishReason::ToolCalls),
        plan.tools_allowed,
    );
    let calls = match step {
        ResponseStep::RunTools(calls) => calls,
        other => panic!("unexpected {other:?}"),
    };
    assert!(!turn.finished);
    assert_eq!(session.messages.len(), 2);
    assert_eq!(session.messages[1].tool_calls.as_ref().map(|calls| calls.len()), Some(1));

    let tool_plan = plan_tool_call(&agent.tool_registry, &calls[0]);
    assert_eq!(tool_plan.notice.id, "c1");
    assert_eq!(tool_plan.notice.title, "Read file /a.rs");
    assert_eq!(tool_plan.notice.kind, ToolKind::Fetch);
    assert_eq!(tool_plan.notice.status, ToolCallStatus::Pending);
    assert!(tool_plan.needs_permission());
    let step = tool_plan.after_permission(&PermissionOutcome::Selected("allow-once".to_string()));
    let args = match step {
        ToolCallStep::Execute { progress, tool, args } => {
            assert_eq!(progress.id, "c1");
            assert_eq!(progress.status, Some(ToolCallStatus::InProgress));
            assert_eq!(tool, SupportedTool::ReadFile);
            args
        }
        other => panic!("unexpected {other:?}"),
    };
    assert_eq!(read_file_request(&args).unwrap().path, "/a.rs");
    let report = read_file_success("/a.rs", "content");
    let update = completion_update("c1", &report);
    assert_eq!(update.status, Some(ToolCallStatus::Completed));
    assert!(update.raw_output.is_some());
    record_tool_results(&mut session, vec![tool_call_result("c1", report)]);
    assert_eq!(session.messages.len(), 3);
    assert_eq!(session.messages[2].role, MessageRole::Tool);
    assert_eq!(session.messages[2].tool_call_id.as_deref(), Some("c1"));

    let step = turn.on_response(&mut session, response(Some("done"), None, FinishReason::Stop), true);
    match step {
        ResponseStep::Finish(chunks) => assert_eq!(chunk_texts(&chunks), vec![(true, "done".to_string())]),
        other => panic!("unexpected {other:?}"),
    }
    assert_eq!(turn.finalize_turn(&mut session), StopReason::EndTurn);
    assert_eq!(session.messages.len(), 4);
    assert_eq!(session.messages[3].content, "done");
}

#[test]
fn denied_permission_fails_the_call_without_running_it() {
    let registry = ToolRegistry::new(true);
    let plan = plan_tool_call(&registry, &read_call("c2", r#"{"path": "/secret"}"#));
    match plan.after_permission(&PermissionOutcome::Selected("reject-once".to_string())) {
        ToolCallStep::Done { progress, report } => {
            assert!(progress.is_none());
            assert_eq!(report.status, ToolCallStatus::Failed);
            let envelope = json(&report.llm_response);
            assert_eq!(envelope.get_str("status"), Some("error"));
            assert_eq!(
                envelope.get_str("message"),
                Some("Tool execution cancelled: permission denied by the user")
            );
            let update = completion_update("c2", &report);
            assert_eq!(update.status, Some(ToolCallStatus::Failed));
        }
        other => panic!("unexpected {other:?}"),
    }
}

#[test]
fn unknown_tools_and_bad_arguments_are_reported() {
    let registry = ToolRegistry::new(true);
    let unknown = ToolCall::function("c3".to_string(), "write_file".to_string(), "{}".to_string());
    let plan = plan_tool_call(&registry, &unknown);
    assert_eq!(plan.notice.title, "write_file (unsupported)");
    assert_eq!(plan.notice.kind, ToolKind::Other);
    assert!(!plan.needs_permission());
    match plan.after_permission(&PermissionOutcome::Unreachable) {
        ToolCallStep::Done { progress, report } => {
            assert!(progress.is_none());
            assert_eq!(json(&report.llm_response).get_str("message"), Some("Unsupported tool"));
            assert_eq!(json(&report.llm_response).get_str("tool"), Some("write_file"));
        }
        other => panic!("unexpected {other:?}"),
    }
    let broken = plan_tool_call(&registry, &read_call("c4", "{not json"));
    assert!(!broken.needs_permission());
    assert!(broken.notice.raw_input.is_none());
    match broken.after_permission(&PermissionOutcome::Unreachable) {
        ToolCallStep::Done { progress, report } => {
            assert!(progress.is_some());
            let envelope = json(&report.llm_response);
            assert!(envelope.get_str("message").unwrap().starts_with("Invalid JSON arguments: "));
        }
        other => panic!("unexpected {other:?}"),
    }
}

#[test]
fn calls_of_a_turn_without_tools_are_answered_as_unavailable() {
    let results = unavailable_results(&[read_call("a", "{}"), read_call("b", "{}")]);
    assert_eq!(results.len(), 2);
    assert_eq!(results[0].tool_call_id, "a");
    assert_eq!(json(&results[1].llm_response).get_str("status"), Some("error"));
}

#[test]
fn finish_reasons_become_stop_reasons() {
    assert_eq!(stop_reason_from_finish(&FinishReason::Stop), StopReason::EndTurn);
    assert_eq!(stop_reason_from_finish(&FinishReason::ToolCalls), StopReason::EndTurn);
    assert_eq!(stop_reason_from_finish(&FinishReason::Length), StopReason::MaxTokens);
    assert_eq!(stop_reason_from_finish(&FinishReason::ContentFilter), StopReason::Refusal);
    assert_eq!(stop_reason_from_finish(&FinishReason::Error("x".to_string())), StopReason::Refusal);
}

#[test]
fn sessions_are_numbered_and_found_again() {
    let mut store = SessionStore::new();
    let first = store.register_session();
    let second = store.register_session();
    assert_eq!(first, "vtcode-zed-session-0");
    assert_eq!(second, "vtcode-zed-session-1");
    assert_eq!(store.session_index(&second), Some(1));
    assert_eq!(store.session_index("missing"), None);
    store.cancel(&first);
    assert!(store.sessions[0].cancel_flag);
    assert!(!store.sessions[1].cancel_flag);
    store.cancel("missing");
}

#[test]
fn tools_switched_off_by_configuration_are_announced_once() {
    let agent = agent(false);
    let mut session = SessionData::new();
    let first = agent.begin_turn(&mut session, "hi".to_string(), caps(true, true));
    assert_eq!(
        first.notice.as_deref(),
        Some("Skipping read_file tool: disabled via [acp.zed.tools].")
    );
    assert!(!first.tools_allowed);
    let second = agent.begin_turn(&mut session, "again".to_string(), caps(true, true));
    assert!(second.notice.is_none());
}

#[test]
fn uri_of_a_call_is_resolved_before_it_is_read() {
    let request = read_file_request(&json(r#"{"uri": "zed://project/src/a%20b.rs"}"#)).unwrap();
    assert_eq!(request.path, "/src/a b.rs");
    assert_eq!(
        parse_tool_path(&json(r#"{"uri": "/abs/x.rs"}"#)).as_deref(),
        Ok("/abs/x.rs")
    );
}
