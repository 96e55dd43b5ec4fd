use vtcode_core::agent::runloop::model_picker::{
    parse_model_selection, parse_number, render_step_one_plain, InlineListSelection, MessageStyle,
    ModelOption, ModelPickerProgress, ModelPickerState, PickerOutput, PickerStep,
    ReasoningEffortLevel,
};

fn option(index: usize, provider: &str, id: &str, reasoning: bool) -> ModelOption {
    ModelOption {
        index,
        provider_key: provider.to_string(),
        provider_label: format!("{}{}", provider[..1].to_uppercase(), &provider[1..]),
        env_key: format!("{}_API_KEY", provider.to_uppercase()),
        id: id.to_string(),
        display: id.to_uppercase(),
        description: format!("about {id}"),
        supports_reasoning: reasoning,
    }
}

fn options() -> Vec<ModelOption> {
    vec![
        option(1, "openai", "gpt-5", true),
        option(2, "openai", "gpt-4o-mini", false),
        option(3, "openrouter", "x-ai/grok-4-fast:free", true),
    ]
}

fn env(pairs: &[(&str, &str)]) -> Vec<(String, String)> {
    pairs.iter().map(|(k, v)| (k.to_string(), v.to_string())).collect()
}

fn texts(output: &PickerOutput) -> Vec<(MessageStyle, String)> {
    output.lines.iter().map(|line| (line.style, line.text.clone())).collect()
}

fn picker(inline: bool) -> ModelPickerState {
    ModelPickerState::new(options(), inline, ReasoningEffortLevel::Medium)
}

#[test]
fn numbers_are_read_like_the_machine_word() {
    let read = |text: &str| parse_number(&text.chars().collect::<Vec<char>>());
    assert_eq!(read("12"), Some(12));
    assert_eq!(read("+7"), Some(7));
    assert_eq!(read("007"), Some(7));
    assert_eq!(read(""), None);
    assert_eq!(read("+"), None);
    assert_eq!(read("-1"), None);
    assert_eq!(read("1 "), None);
    assert_eq!(read("18446744073709551615"), Some(usize::MAX));
    assert_eq!(read("18446744073709551616"), None);
    for text in ["12", "+7", "", "+", "-1", "1x", "99999999999999999999999"] {
        assert_eq!(read(text), text.parse::<usize>().ok(), "{text}");
    }
}

#[test]
fn typed_selections_name_an_option_or_a_custom_model() {
    let none = env(&[]);
    let by_number = parse_model_selection(&options(), "2", &none).unwrap();
    assert_eq!(by_number.model_id, "gpt-4o-mini");
    assert!(by_number.known_model);
    assert!(by_number.requires_api_key);
    assert_eq!(
        parse_model_selection(&options(), "9", &none).err().as_deref(),
        Some("No model with number 9")
    );
    assert_eq!(
        parse_model_selection(&options(), "   ", &none).err().as_deref(),
        Some("Please provide a provider and model identifier.")
    );
    assert_eq!(
        parse_model_selection(&options(), "openai", &none).err().as_deref(),
        Some("Provide both provider and model. Example: 'openai gpt-5'")
    );
    let listed = parse_model_selection(&options(), "OpenAI GPT-5", &none).unwrap();
    assert!(listed.known_model);
    assert_eq!(listed.model_id, "gpt-5");
    assert!(listed.reasoning_supported);
    let custom = parse_model_selection(&options(), "openai   my   model", &none).unwrap();
    assert!(!custom.known_model);
    assert!(custom.known_provider);
    assert_eq!(custom.model_id, "my model");
    assert_eq!(custom.provider_label, "Openai");
    assert_eq!(custom.env_key, "OPENAI_API_KEY");
    assert!(custom.reasoning_optional);
    let keyed = env(&[("MY_LAB_API_KEY", "secret")]);
    let unknown = parse_model_selection(&options(), "My-Lab tiny", &keyed).unwrap();
    assert!(!unknown.known_provider);
    assert_eq!(unknown.provider_key, "my-lab");
    assert_eq!(unknown.provider_label, "My-lab");
    assert_eq!(unknown.env_key, "MY_LAB_API_KEY");
    assert!(!unknown.requires_api_key);
}

#[test]
fn blank_input_and_giving_up() {
    let mut state = picker(false);
    let blank = state.handle_input("   ", &env(&[])).unwrap();
    assert!(matches!(blank.progress, ModelPickerProgress::InProgress));
    assert_eq!(
        texts(&blank),
        vec![(MessageStyle::Error, "Please enter a value or type 'cancel'.".to_string())]
    );
    let cancelled = state.handle_input(" Cancel ", &env(&[])).unwrap();
    assert!(matches!(cancelled.progress, ModelPickerProgress::Cancelled));
    assert_eq!(texts(&cancelled), vec![(MessageStyle::Info, "Model picker cancelled.".to_string())]);
}

#[test]
fn model_then_reasoning_then_key() {
    let mut state = picker(false);
    let none = env(&[]);
    let first = state.handle_input("1", &none).unwrap();
    assert!(matches!(first.progress, ModelPickerProgress::InProgress));
    assert_eq!(state.step, PickerStep::AwaitReasoning);
    assert_eq!(
        texts(&first),
        vec![
            (MessageStyle::Info, "Selected GPT-5 (gpt-5) from Openai.".to_string()),
            (
                MessageStyle::Info,
                "Step 2 – select reasoning effort for GPT-5 (easy/medium/hard). Current: medium."
                    .to_string()
            ),
        ]
    );
    let unknown = state.handle_input("extreme", &none).unwrap();
    assert_eq!(unknown.lines.len(), 2);
    assert_eq!(unknown.lines[0].style, MessageStyle::Error);
    assert_eq!(state.step, PickerStep::AwaitReasoning);
    let second = state.handle_input("HARD", &none).unwrap();
    assert_eq!(state.step, PickerStep::AwaitApiKey);
    assert_eq!(
        texts(&second),
        vec![
            (
                MessageStyle::Info,
                "Step 3 – enter an API key for Openai (env: OPENAI_API_KEY).".to_string()
            ),
            (
                MessageStyle::Info,
                "Paste the API key now or type 'skip' to reuse the existing environment value."
                    .to_string()
            ),
        ]
    );
    let skipped = state.handle_input("skip", &none).unwrap();
    assert!(matches!(skipped.progress, ModelPickerProgress::InProgress));
    assert_eq!(skipped.lines.len(), 3);
    assert_eq!(
        skipped.lines[0].text,
        "Environment variable OPENAI_API_KEY is not set. Please provide an API key."
    );
    let done = state.handle_input(" sk-123 ", &none).unwrap();
    match done.progress {
        ModelPickerProgress::Completed(result) => {
            assert_eq!(result.provider, "openai");
            assert_eq!(result.model, "gpt-5");
            assert_eq!(result.reasoning, ReasoningEffortLevel::High);
            assert!(result.reasoning_changed);
            assert_eq!(result.api_key.as_deref(), Some("sk-123"));
            assert_eq!(result.env_key, "OPENAI_API_KEY");
            assert!(result.requires_api_key);
            let kept = state.persist_selection(&result);
            assert_eq!(kept.provider, "openai");
            assert_eq!(kept.default_model, "gpt-5");
            assert_eq!(kept.router_model, "gpt-5");
            assert_eq!(kept.api_key_env, "OPENAI_API_KEY");
            assert_eq!(kept.custom_api_key.as_deref(), Some("sk-123"));
            assert_eq!(kept.reasoning_effort, ReasoningEffortLevel::High);
        }
        other => panic!("unexpected {other:?}"),
    }
}

#[test]
fn a_key_in_the_environment_ends_the_picker_early() {
    let mut state = picker(false);
    let keyed = env(&[("OTHER", "x"), ("OPENAI_API_KEY", " sk ")]);
    let done = state.handle_input("openai gpt-4o-mini", &keyed).unwrap();
    match done.progress {
        ModelPickerProgress::Completed(result) => {
            assert_eq!(result.model, "gpt-4o-mini");
            assert_eq!(result.reasoning, ReasoningEffortLevel::Medium);
            assert!(!result.reasoning_changed);
            assert!(result.api_key.is_none());
            assert!(!result.requires_api_key);
        }
        other => panic!("unexpected {other:?}"),
    }
    let mut blank_key = picker(false);
    let asked = blank_key.handle_input("2", &env(&[("OPENAI_API_KEY", "  ")])).unwrap();
    assert!(matches!(asked.progress, ModelPickerProgress::InProgress));
    assert_eq!(blank_key.step, PickerStep::AwaitApiKey);
    let reused = blank_key.handle_input("SKIP", &env(&[("OPENAI_API_KEY", "now-set")])).unwrap();
    assert_eq!(
        reused.lines[0].text,
        "Using existing environment variable OPENAI_API_KEY for Openai."
    );
    assert!(matches!(reused.progress, ModelPickerProgress::Completed(_)));
}

#[test]
fn lists_drive_the_same_steps() {
    let mut state = picker(true);
    let keyed = env(&[("OPENROUTER_API_KEY", "k")]);
    let missing = state.handle_list_selection(InlineListSelection::Model(42), &keyed).unwrap();
    assert_eq!(missing.lines[0].text, "Unable to locate the selected model option.");
    let early = state
        .handle_list_selection(InlineListSelection::Reasoning(ReasoningEffortLevel::Low), &keyed)
        .unwrap();
    assert_eq!(early.lines[0].text, "Select a model before configuring reasoning effort.");
    let custom = state.handle_list_selection(InlineListSelection::CustomModel, &keyed).unwrap();
    assert!(custom.close_modal);
    assert_eq!(custom.lines.len(), 2);
    assert!(state.handle_list_selection(InlineListSelection::Theme, &keyed).unwrap().lines.is_empty());

    let picked = state.handle_list_selection(InlineListSelection::Model(3), &keyed).unwrap();
    assert!(picked.show_reasoning_list);
    assert_eq!(picked.lines.len(), 1);
    assert_eq!(state.step, PickerStep::AwaitReasoning);
    let wrong = state.handle_list_selection(InlineListSelection::Model(1), &keyed).unwrap();
    assert_eq!(wrong.lines[0].style, MessageStyle::Error);
    let done = state
        .handle_list_selection(InlineListSelection::Reasoning(ReasoningEffortLevel::Low), &keyed)
        .unwrap();
    assert!(done.close_modal);
    match done.progress {
        ModelPickerProgress::Completed(result) => {
            assert_eq!(result.model, "x-ai/grok-4-fast:free");
            assert_eq!(result.reasoning, ReasoningEffortLevel::Low);
            assert!(result.reasoning_changed);
        }
        other => panic!("unexpected {other:?}"),
    }
}

#[test]
fn a_picker_without_a_selection_refuses_later_steps() {
    let mut state = picker(false);
    state.step = PickerStep::AwaitReasoning;
    assert_eq!(
        state.handle_input("easy", &env(&[])).err().as_deref(),
        Some("Reasoning requested before selecting a model")
    );
    state.step = PickerStep::AwaitApiKey;
    assert_eq!(
        state.handle_input("key", &env(&[])).err().as_deref(),
        Some("API key requested before selecting a model")
    );
    let told = state.handle_list_selection(InlineListSelection::CustomModel, &env(&[])).unwrap();
    assert_eq!(told.lines[0].text, "Enter the API key in the input field or type 'skip'.");
}

#[test]
fn models_are_listed_by_provider() {
    let lines = render_step_one_plain(&options());
    let texts: Vec<&str> = lines.iter().map(|line| line.text.as_str()).collect();
    assert_eq!(
        &texts[3..],
        &[
            "[Openai]",
            "  (1) GPT-5 • gpt-5 [reasoning]",
            "      about gpt-5",
            "  (2) GPT-4O-MINI • gpt-4o-mini",
            "      about gpt-4o-mini",
            "[Openrouter]",
            "  (3) X-AI/GROK-4-FAST:FREE • x-ai/grok-4-fast:free [reasoning]",
            "      about x-ai/grok-4-fast:free",
        ]
    );
    assert_eq!(texts[0], "Model picker – Step 1: select the model you want to use.");
}
