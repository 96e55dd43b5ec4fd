use vtcode_core::config::context::ContextCurationConfig;
use vtcode_core::context_curator::{
    compress, detect_phase_of, select_tools, ContextCurator, ConversationPhase, CuratedContext,
    ErrorContext, FileSummary, Message, ToolDefinition,
};

fn message(content: &str, tokens: usize) -> Message {
    Message { role: "user".to_string(), content: content.to_string(), estimated_tokens: tokens }
}

fn tool(name: &str, tokens: usize) -> ToolDefinition {
    ToolDefinition {
        name: name.to_string(),
        description: format!("{name} tool"),
        estimated_tokens: tokens,
    }
}

fn tool_names(tools: &[ToolDefinition]) -> Vec<&str> {
    tools.iter().map(|tool| tool.name.as_str()).collect()
}

#[test]
fn test_context_curation_basic() {
    let curation_config = ContextCurationConfig::default();
    let mut curator = ContextCurator::new(curation_config);

    let messages = vec![Message {
        role: "user".to_string(),
        content: "Search for the main function".to_string(),
        estimated_tokens: 10,
    }];

    let tools = vec![
        ToolDefinition {
            name: "grep_search".to_string(),
            description: "Search for patterns".to_string(),
            estimated_tokens: 50,
        },
        ToolDefinition {
            name: "edit_file".to_string(),
            description: "Edit a file".to_string(),
            estimated_tokens: 50,
        },
    ];

    let context = curator.curate_context(&messages, &tools, 128_000, "");

    assert_eq!(context.phase, ConversationPhase::Exploration);
    assert_eq!(context.recent_messages.len(), 1);
    assert!(!context.relevant_tools.is_empty());
}

#[test]
fn test_phase_detection() {
    let curation_config = ContextCurationConfig::default();
    let mut curator = ContextCurator::new(curation_config);

    let messages = vec![Message {
        role: "user".to_string(),
        content: "Edit the config file".to_string(),
        estimated_tokens: 10,
    }];

    let phase = curator.detect_phase(&messages);
    assert_eq!(phase, ConversationPhase::Implementation);
}

#[test]
fn phase_follows_the_last_message_whatever_its_case() {
    let unknown = ConversationPhase::Unknown;
    assert_eq!(detect_phase_of(&[message("FIND it", 1)], unknown, false), ConversationPhase::Exploration);
    assert_eq!(detect_phase_of(&[message("Run the tests", 1)], unknown, false), ConversationPhase::Validation);
    assert_eq!(detect_phase_of(&[message("Fix the bug", 1)], unknown, false), ConversationPhase::Debugging);
    assert_eq!(
        detect_phase_of(&[message("search", 1), message("hello", 1)], ConversationPhase::Validation, false),
        ConversationPhase::Validation
    );
    assert_eq!(detect_phase_of(&[message("hello", 1)], unknown, true), ConversationPhase::Debugging);
    assert_eq!(detect_phase_of(&[], ConversationPhase::Implementation, false), ConversationPhase::Implementation);
}

#[test]
fn curator_remembers_the_phase_it_found() {
    let mut curator = ContextCurator::new(ContextCurationConfig::default());
    assert_eq!(curator.current_phase(), ConversationPhase::Unknown);
    curator.detect_phase(&[message("write the file", 1)]);
    assert_eq!(curator.current_phase(), ConversationPhase::Implementation);
    assert_eq!(curator.detect_phase(&[message("hm", 1)]), ConversationPhase::Implementation);
}

#[test]
fn tools_of_the_phase_come_first_and_never_exceed_the_limit() {
    let available = vec![
        tool("edit_file", 1),
        tool("grep_search", 1),
        tool("run_terminal_cmd", 1),
        tool("list_files", 1),
    ];
    let exploring = select_tools(&available, ConversationPhase::Exploration, 3);
    assert_eq!(tool_names(&exploring), vec!["grep_search", "list_files", "edit_file"]);
    let validating = select_tools(&available, ConversationPhase::Validation, 1);
    assert_eq!(tool_names(&validating), vec!["run_terminal_cmd"]);
    let any = select_tools(&available, ConversationPhase::Unknown, 2);
    assert_eq!(tool_names(&any), vec!["edit_file", "grep_search"]);
    assert!(select_tools(&available, ConversationPhase::Debugging, 0).is_empty());
    assert_eq!(select_tools(&available, ConversationPhase::Implementation, 10).len(), 4);
}

#[test]
fn estimates_add_up() {
    let mut context = CuratedContext::new();
    assert_eq!(context.estimated_tokens, 0);
    context.add_recent_messages(&[message("a", 7), message("b", 5), message("c", 3)], 2);
    assert_eq!(context.recent_messages.len(), 2);
    assert_eq!(context.recent_messages[0].content, "b");
    assert_eq!(context.estimated_tokens, 8);
    context.add_ledger_summary("x".repeat(40));
    assert_eq!(context.estimated_tokens, 18);
    context.add_file_context(FileSummary {
        path: "a.rs".to_string(),
        size_lines: 10,
        last_modified: None,
        summary: "s".repeat(8),
    });
    assert_eq!(context.estimated_tokens, 20);
    context.add_error_context(ErrorContext {
        error_message: "e".repeat(20),
        tool_name: None,
        resolution: None,
        timestamp: 0,
    });
    assert_eq!(context.estimated_tokens, 25);
    context.add_tools(vec![tool("t", 30)]);
    assert_eq!(context.estimated_tokens, 55);
}

#[test]
fn compression_drops_tools_then_files_then_errors_then_messages() {
    let mut context = CuratedContext::new();
    context.add_recent_messages(
        &[message("m1", 100), message("m2", 100), message("m3", 100), message("m4", 100)],
        4,
    );
    context.add_file_context(FileSummary {
        path: "a.rs".to_string(),
        size_lines: 1,
        last_modified: None,
        summary: String::new(),
    });
    context.add_error_context(ErrorContext {
        error_message: "e".repeat(400),
        tool_name: None,
        resolution: None,
        timestamp: 0,
    });
    context.add_tools((0..7).map(|i| tool(&format!("t{i}"), 50)).collect());
    assert_eq!(context.estimated_tokens, 400 + 100 + 350);

    let unchanged = compress(clone_context(&context), 850);
    assert_eq!(unchanged.estimated_tokens, 850);
    assert_eq!(unchanged.relevant_tools.len(), 7);

    let fewer_tools = compress(clone_context(&context), 800);
    assert_eq!(fewer_tools.relevant_tools.len(), 6);
    assert_eq!(fewer_tools.active_files.len(), 1);

    let floor = compress(clone_context(&context), 300);
    assert_eq!(floor.relevant_tools.len(), 5);
    assert!(floor.active_files.is_empty());
    assert!(floor.recent_errors.is_empty());
    assert_eq!(floor.recent_messages.len(), 3);
    assert_eq!(floor.recent_messages[0].content, "m2");
    assert_eq!(floor.estimated_tokens, 450);
}

fn clone_context(context: &CuratedContext) -> CuratedContext {
    CuratedContext {
        recent_messages: context.recent_messages.iter().map(Message::duplicate).collect(),
        active_files: context.active_files.iter().map(FileSummary::duplicate).collect(),
        ledger_summary: context.ledger_summary.clone(),
        recent_errors: context.recent_errors.iter().map(ErrorContext::duplicate).collect(),
        relevant_tools: context.relevant_tools.iter().map(ToolDefinition::duplicate).collect(),
        estimated_tokens: context.estimated_tokens,
        phase: context.phase,
    }
}

#[test]
fn curation_switched_off_hands_everything_on() {
    let mut config = ContextCurationConfig::default();
    config.enabled = false;
    let mut curator = ContextCurator::new(config);
    let conversation: Vec<Message> = (0..30).map(|i| message(&format!("m{i}"), 1)).collect();
    let tools: Vec<ToolDefinition> = (0..20).map(|i| tool(&format!("t{i}"), 1)).collect();
    let context = curator.curate_context(&conversation, &tools, 5, "ledger");
    assert_eq!(context.recent_messages.len(), 30);
    assert_eq!(context.relevant_tools.len(), 20);
    assert!(context.ledger_summary.is_none());
}

#[test]
fn curation_gathers_files_errors_and_ledger() {
    let mut curator = ContextCurator::new(ContextCurationConfig::default());
    curator.add_file_summary(FileSummary {
        path: "src/a.rs".to_string(),
        size_lines: 3,
        last_modified: Some(5),
        summary: "a".to_string(),
    });
    curator.mark_file_active("src/a.rs".to_string());
    curator.mark_file_active("src/a.rs".to_string());
    curator.mark_file_active("src/unknown.rs".to_string());
    curator.add_error(ErrorContext {
        error_message: "first".to_string(),
        tool_name: Some("grep_search".to_string()),
        resolution: None,
        timestamp: 1,
    });
    curator.add_error(ErrorContext {
        error_message: "second".to_string(),
        tool_name: None,
        resolution: None,
        timestamp: 2,
    });
    let context = curator.curate_context(&[message("hello", 4)], &[tool("t", 2)], 100_000, "decided");
    assert_eq!(context.phase, ConversationPhase::Debugging);
    assert_eq!(context.active_files.len(), 1);
    assert_eq!(context.active_files[0].path, "src/a.rs");
    assert_eq!(context.ledger_summary.as_deref(), Some("decided"));
    assert_eq!(context.recent_errors.len(), 2);
    assert_eq!(context.recent_errors[0].error_message, "second");
    curator.clear_errors();
    curator.clear_active_files();
    let after = curator.curate_context(&[message("hello", 4)], &[tool("t", 2)], 100_000, "");
    assert!(after.recent_errors.is_empty());
    assert!(after.active_files.is_empty());
    assert!(after.ledger_summary.is_none());
}

#[test]
fn messages_already_held_are_not_counted_again() {
    let mut context = CuratedContext::new();
    context.add_recent_messages(&[message("a", 7)], 5);
    assert_eq!(context.estimated_tokens, 7);
    context.add_recent_messages(&[message("b", 5), message("c", 3)], 1);
    assert_eq!(context.recent_messages.len(), 2);
    assert_eq!(context.recent_messages[1].content, "c");
    assert_eq!(context.estimated_tokens, 10);
    context.add_recent_messages(&[message("d", 4)], 0);
    assert_eq!(context.recent_messages.len(), 2);
    assert_eq!(context.estimated_tokens, 10);
}
