use vtcode_core::config::constants::{
    HEADER_INPUT_LABEL, HEADER_LANGUAGES_PREFIX, HEADER_MCP_PREFIX, HEADER_MESSAGES_LABEL,
    HEADER_MODEL_PREFIX, HEADER_MODE_AUTO, HEADER_PROVIDER_PREFIX, HEADER_REASONING_PREFIX,
    HEADER_STATUS_LABEL, HEADER_TOOLS_PREFIX, HEADER_TRUST_PREFIX,
    INLINE_AGENT_MESSAGE_LEFT_PADDING, INLINE_AGENT_QUOTE_PREFIX, INLINE_HEADER_HEIGHT,
    INLINE_INPUT_HEIGHT, INLINE_USER_MESSAGE_DIVIDER_SYMBOL,
};
use vtcode_core::ui::tui::session::{
    render_message_spans, KeyCode, KeyEvent, KeyModifiers, MessageLabels, NavigationPlacement,
    Session, TerminalEvent, TOOL_BORDER_SYMBOL,
};
use vtcode_core::ui::tui::style::StyledSpan;
use vtcode_core::ui::tui::types::{
    InlineColor, InlineCommand, InlineEvent, InlineHeaderContext, InlineMessageKind,
    InlineSegment, InlineTextStyle, InlineTheme,
};

const VIEW_ROWS: u16 = 14;
const VIEW_WIDTH: u16 = 100;
const LINE_COUNT: usize = 10;
const LABEL_PREFIX: &str = "line";
const EXTRA_SEGMENT: &str = "\nextra-line";

fn make_segment(text: &str) -> InlineSegment {
    InlineSegment { text: text.to_string(), style: InlineTextStyle::default() }
}

fn themed_inline_colors() -> InlineTheme {
    let mut theme = InlineTheme::default();
    theme.foreground = Some(InlineColor::Rgb(0xEE, 0xEE, 0xEE));
    theme.tool_accent = Some(InlineColor::Rgb(0xBF, 0x45, 0x45));
    theme.tool_body = Some(InlineColor::Rgb(0xAA, 0x88, 0x88));
    theme.primary = Some(InlineColor::Rgb(0x88, 0x88, 0x88));
    theme.secondary = Some(InlineColor::Rgb(0x77, 0x99, 0xAA));
    theme
}

fn session_with_input(input: &str, cursor: usize) -> Session {
    let mut session = Session::new(InlineTheme::default(), None, VIEW_ROWS, true);
    session.set_input(input);
    session.set_cursor(cursor);
    session
}

fn key(code: KeyCode, modifiers: KeyModifiers) -> KeyEvent {
    KeyEvent::new(code, modifiers)
}

fn alt() -> KeyModifiers {
    KeyModifiers { alt: true, ..KeyModifiers::none() }
}

fn command() -> KeyModifiers {
    KeyModifiers { command: true, ..KeyModifiers::none() }
}

fn control() -> KeyModifiers {
    KeyModifiers { control: true, ..KeyModifiers::none() }
}

fn line_text(line: &[StyledSpan]) -> String {
    line.iter().map(|span| span.text.as_str()).collect()
}

/// Lays a frame out as the terminal would and returns the rows of the
/// transcript that are in view.
fn draw(session: &mut Session, width: u16, rows: u16) -> Vec<String> {
    session.apply_view_rows(rows);
    let header = session.header_height_for_width(width);
    session.set_header_rows(header);
    let main_height = rows
        .saturating_sub(header)
        .saturating_sub(INLINE_INPUT_HEIGHT)
        .saturating_sub(session.slash_suggestion_height())
        .max(1);
    let (transcript_width, transcript_height) = match session.navigation_placement(width) {
        NavigationPlacement::Hidden => (width, main_height),
        NavigationPlacement::Beside { nav_width } => (width - nav_width, main_height),
        NavigationPlacement::Below { transcript_percent, .. } => {
            (width, (u32::from(main_height) * u32::from(transcript_percent) / 100) as u16)
        }
    };
    let frame = session
        .render_transcript(transcript_width.saturating_sub(2), transcript_height.saturating_sub(2).max(1));
    match frame {
        Some(frame) => frame
            .rows
            .iter()
            .map(|row| line_text(row).trim_end().to_string())
            .collect(),
        None => Vec::new(),
    }
}

fn visible_transcript(session: &mut Session) -> Vec<String> {
    draw(session, VIEW_WIDTH, VIEW_ROWS)
}

fn header_context() -> InlineHeaderContext {
    InlineHeaderContext {
        provider: format!("{}xAI", HEADER_PROVIDER_PREFIX),
        model: format!("{}grok-4-fast", HEADER_MODEL_PREFIX),
        version: "0.1.0".to_string(),
        mode: HEADER_MODE_AUTO.to_string(),
        reasoning: format!("{}medium", HEADER_REASONING_PREFIX),
        workspace_trust: format!("{}full auto", HEADER_TRUST_PREFIX),
        tools: format!("{}allow 11 · prompt 7 · deny 0", HEADER_TOOLS_PREFIX),
        languages: format!("{}Rust:177", HEADER_LANGUAGES_PREFIX),
        mcp: format!("{}enabled", HEADER_MCP_PREFIX),
    }
}

#[test]
fn move_left_word_from_end_moves_to_word_start() {
    let text = "hello world";
    let mut session = session_with_input(text, text.len());

    session.move_left_word();
    assert_eq!(session.cursor(), 6);

    session.move_left_word();
    assert_eq!(session.cursor(), 0);
}

#[test]
fn move_left_word_skips_trailing_whitespace() {
    let text = "hello  world";
    let mut session = session_with_input(text, text.len());

    session.move_left_word();
    assert_eq!(session.cursor(), 7);
}

#[test]
fn alt_arrow_left_moves_cursor_by_word() {
    let text = "hello world";
    let mut session = session_with_input(text, text.len());

    let event = key(KeyCode::Left, alt());
    session.process_key(event);

    assert_eq!(session.cursor(), 6);
}

#[test]
fn alt_b_moves_cursor_by_word() {
    let text = "hello world";
    let mut session = session_with_input(text, text.len());

    let event = key(KeyCode::Char('b'), alt());
    session.process_key(event);

    assert_eq!(session.cursor(), 6);
}

#[test]
fn move_right_word_advances_to_word_boundaries() {
    let text = "hello  world";
    let mut session = session_with_input(text, 0);

    session.move_right_word();
    assert_eq!(session.cursor(), 5);

    session.move_right_word();
    assert_eq!(session.cursor(), text.len());

    session.move_right_word();
    assert_eq!(session.cursor(), text.len());
}

#[test]
fn move_right_word_from_whitespace_moves_to_next_word_start() {
    let text = "hello  world";
    let mut session = session_with_input(text, 5);

    session.move_right_word();
    assert_eq!(session.cursor(), text.len());
}

#[test]
fn super_arrow_right_moves_cursor_to_end() {
    let text = "hello world";
    let mut session = session_with_input(text, 0);

    let event = key(KeyCode::Right, command());
    session.process_key(event);

    assert_eq!(session.cursor(), text.len());
}

#[test]
fn super_a_moves_cursor_to_start() {
    let text = "hello world";
    let mut session = session_with_input(text, text.len());

    let event = key(KeyCode::Char('a'), command());
    session.process_key(event);

    assert_eq!(session.cursor(), 0);
}

#[test]
fn streaming_new_lines_preserves_scrolled_view() {
    let mut session = Session::new(InlineTheme::default(), None, VIEW_ROWS, true);

    for index in 1..=LINE_COUNT {
        let label = format!("{LABEL_PREFIX}-{index}");
        session.push_line(InlineMessageKind::Agent, vec![make_segment(label.as_str())]);
    }

    session.scroll_page_up();
    let before = visible_transcript(&mut session);

    session.append_inline(InlineMessageKind::Agent, make_segment(EXTRA_SEGMENT));

    let after = visible_transcript(&mut session);
    assert_eq!(before.len(), after.len());
    assert!(
        after.iter().all(|line| !line.contains("extra-line")),
        "appended lines should not appear when scrolled up"
    );
}

#[test]
fn streaming_segments_render_incrementally() {
    let mut session = Session::new(InlineTheme::default(), None, VIEW_ROWS, true);

    session.push_line(InlineMessageKind::Agent, vec![make_segment("")]);

    session.append_inline(InlineMessageKind::Agent, make_segment("Hello"));
    let first = visible_transcript(&mut session);
    assert!(first.iter().any(|line| line.contains("Hello")));

    session.append_inline(InlineMessageKind::Agent, make_segment(" world"));
    let second = visible_transcript(&mut session);
    assert!(second.iter().any(|line| line.contains("Hello world")));
}

#[test]
fn page_up_reveals_prior_lines_until_buffer_start() {
    let mut session = Session::new(InlineTheme::default(), None, VIEW_ROWS, true);

    for index in 1..=LINE_COUNT {
        let label = format!("{LABEL_PREFIX}-{index}");
        session.push_line(InlineMessageKind::Agent, vec![make_segment(label.as_str())]);
    }

    let mut transcripts = Vec::new();
    let mut iterations = 0;
    loop {
        transcripts.push(visible_transcript(&mut session));
        let previous_offset = session.scroll_offset();
        session.scroll_page_up();
        if session.scroll_offset() == previous_offset {
            break;
        }
        iterations += 1;
        assert!(
            iterations <= LINE_COUNT,
            "scroll_page_up did not converge within expected bounds"
        );
    }

    assert!(transcripts.len() > 1);

    for window in transcripts.windows(2) {
        assert_ne!(window[0], window[1]);
    }

    let top_view = transcripts
        .last()
        .expect("a top-of-buffer page should exist after scrolling");
    let first_label = format!("{LABEL_PREFIX}-1");
    let last_label = format!("{LABEL_PREFIX}-{LINE_COUNT}");

    assert!(top_view.iter().any(|line| line.contains(&first_label)));
    assert!(top_view.iter().all(|line| !line.contains(&last_label)));
    let scroll_offset = session.scroll_offset();
    let max_offset = session.current_max_scroll_offset();
    assert_eq!(scroll_offset, max_offset);
}

#[test]
fn resizing_viewport_clamps_scroll_offset() {
    let mut session = Session::new(InlineTheme::default(), None, VIEW_ROWS, true);

    for index in 1..=LINE_COUNT {
        let label = format!("{LABEL_PREFIX}-{index}");
        session.push_line(InlineMessageKind::Agent, vec![make_segment(label.as_str())]);
    }

    session.scroll_page_up();
    assert!(session.scroll_offset() > 0);

    session.apply_view_rows((LINE_COUNT as u16) + INLINE_HEADER_HEIGHT + INLINE_INPUT_HEIGHT + 2);

    assert_eq!(session.scroll_offset(), 0);
    let max_offset = session.current_max_scroll_offset();
    assert_eq!(max_offset, 0);
}

#[test]
fn scroll_end_displays_full_final_paragraph() {
    let mut session = Session::new(InlineTheme::default(), None, VIEW_ROWS, true);
    let total = LINE_COUNT * 5;

    for index in 1..=total {
        let label = format!("{LABEL_PREFIX}-{index}");
        let text = format!("{label}\n{label}-continued");
        session.push_line(InlineMessageKind::Agent, vec![make_segment(text.as_str())]);
    }

    visible_transcript(&mut session);

    for _ in 0..total {
        session.scroll_page_up();
        if session.scroll_offset() == session.current_max_scroll_offset() {
            break;
        }
    }
    assert!(session.scroll_offset() > 0);

    for _ in 0..total {
        session.scroll_page_down();
        if session.scroll_offset() == 0 {
            break;
        }
    }

    assert_eq!(session.scroll_offset(), 0);

    let view = visible_transcript(&mut session);
    let expected_tail = format!("{LABEL_PREFIX}-{total}-continued");
    assert!(
        view.last().map_or(false, |line| line.contains(&expected_tail)),
        "expected final paragraph tail `{expected_tail}` to appear at bottom, got {view:?}"
    );
}

#[test]
fn user_messages_render_with_dividers() {
    let mut session = Session::new(InlineTheme::default(), None, VIEW_ROWS, true);
    session.push_line(InlineMessageKind::User, vec![make_segment("Hi")]);

    let width = 10;
    let lines = session.reflow_transcript_lines(width);
    assert!(lines.len() >= 3, "expected dividers around the user message");

    let top = line_text(&lines[0]);
    let bottom = line_text(lines.last().expect("user message should have closing divider"));
    let expected = INLINE_USER_MESSAGE_DIVIDER_SYMBOL.repeat(width as usize);

    assert_eq!(top, expected);
    assert_eq!(bottom, expected);
}

#[test]
fn header_lines_include_provider_model_and_metadata() {
    let mut session = Session::new(InlineTheme::default(), None, VIEW_ROWS, true);
    session.handle_command(InlineCommand::SetHeaderContext { context: header_context() });

    let title_line = session.header_title_line();
    let title_text = line_text(&title_line);
    assert!(title_text.contains(HEADER_PROVIDER_PREFIX));
    assert!(title_text.contains(HEADER_MODEL_PREFIX));
    assert!(title_text.contains(HEADER_REASONING_PREFIX));

    let meta_line = session.header_meta_line();
    let meta_text = line_text(&meta_line);
    assert!(meta_text.contains(HEADER_MODE_AUTO));
    assert!(meta_text.contains(HEADER_TRUST_PREFIX));
    assert!(meta_text.contains(HEADER_TOOLS_PREFIX));
    assert!(meta_text.contains(HEADER_LANGUAGES_PREFIX));
    assert!(meta_text.contains(HEADER_MCP_PREFIX));
    assert!(meta_text.contains(HEADER_STATUS_LABEL));
    assert!(meta_text.contains(HEADER_MESSAGES_LABEL));
    assert!(meta_text.contains(HEADER_INPUT_LABEL));
}

#[test]
fn header_height_expands_when_wrapping_required() {
    let mut session = Session::new(InlineTheme::default(), None, VIEW_ROWS, true);
    let mut context = header_context();
    context.provider = format!("{}Example Provider With Extended Label", HEADER_PROVIDER_PREFIX);
    context.model = format!("{}ExampleModelIdentifierWithDetail", HEADER_MODEL_PREFIX);
    context.languages = format!(
        "{}Rust:177, JavaScript:4, Python:2, Go:3, TypeScript:5",
        HEADER_LANGUAGES_PREFIX
    );
    session.handle_command(InlineCommand::SetHeaderContext { context });

    let wide = session.header_height_for_width(120);
    let narrow = session.header_height_for_width(40);

    assert!(narrow > wide, "expected narrower width to require more header rows");
}

#[test]
fn agent_messages_include_left_padding() {
    let mut session = Session::new(InlineTheme::default(), None, VIEW_ROWS, true);
    session.push_line(InlineMessageKind::Agent, vec![make_segment("Response")]);

    let lines = session.reflow_transcript_lines(VIEW_WIDTH);
    let message_line = lines
        .iter()
        .map(|line| line_text(line))
        .find(|text| text.contains("Response"))
        .expect("agent message should be visible");

    let expected_prefix =
        format!("{}{}", INLINE_AGENT_QUOTE_PREFIX, INLINE_AGENT_MESSAGE_LEFT_PADDING);

    assert!(
        message_line.starts_with(&expected_prefix),
        "agent message should include left padding",
    );
    assert!(!message_line.contains('│'), "agent message should not render a left border");
}

#[test]
fn agent_label_uses_accent_color_without_border() {
    let accent = InlineColor::Rgb(0x12, 0x34, 0x56);
    let mut theme = InlineTheme::default();
    theme.primary = Some(accent);

    let mut session = Session::new(theme, None, VIEW_ROWS, true);
    session.handle_command(InlineCommand::SetMessageLabels {
        agent: Some("Agent".to_string()),
        user: None,
    });
    session.push_line(InlineMessageKind::Agent, vec![make_segment("Response")]);

    let line = session.line(session.line_count() - 1);
    let labels = MessageLabels { agent: Some("Agent".to_string()), user: None };
    let spans = render_message_spans(&theme, &labels, &line);

    assert!(spans.len() >= 3);

    let label_span = &spans[0];
    assert_eq!(label_span.text, "Agent");
    assert_eq!(label_span.style.fg, Some(InlineColor::Rgb(0x12, 0x34, 0x56)));

    let padding_span = &spans[1];
    assert_eq!(padding_span.text, INLINE_AGENT_MESSAGE_LEFT_PADDING);

    assert!(
        !spans.iter().any(|span| span.text.contains('│')),
        "agent prefix should not render a left border",
    );
    assert!(
        !spans.iter().any(|span| span.text.contains('✦')),
        "agent prefix should not include decorative symbols",
    );
}

#[test]
fn timeline_hidden_keeps_navigation_unselected() {
    let mut session = Session::new(InlineTheme::default(), None, VIEW_ROWS, false);
    session.push_line(InlineMessageKind::Agent, vec![make_segment("Response")]);

    draw(&mut session, VIEW_WIDTH, VIEW_ROWS);

    assert_eq!(session.navigation_placement(VIEW_WIDTH), NavigationPlacement::Hidden);
    assert!(session.navigation_selection(5).0.is_none());
}

#[test]
fn timeline_visible_selects_latest_item() {
    let mut session = Session::new(InlineTheme::default(), None, VIEW_ROWS, true);
    session.push_line(InlineMessageKind::Agent, vec![make_segment("First")]);
    session.push_line(InlineMessageKind::Agent, vec![make_segment("Second")]);

    draw(&mut session, VIEW_WIDTH, VIEW_ROWS);

    assert_eq!(session.navigation_selection(5).0, Some(1));
}

#[test]
fn tool_header_applies_accent_and_italic_tail() {
    let theme = themed_inline_colors();
    let mut session = Session::new(theme, None, VIEW_ROWS, true);
    session.push_line(
        InlineMessageKind::Tool,
        vec![InlineSegment {
            text: "  [shell] executing".to_string(),
            style: InlineTextStyle::default(),
        }],
    );

    let line = session.line(session.line_count() - 1);
    let labels = MessageLabels { agent: None, user: None };
    let spans = render_message_spans(&theme, &labels, &line);

    assert!(spans.len() >= 3);
    assert_eq!(spans[0].text, "  ");
    assert_eq!(spans[1].text, "[shell]");
    assert_eq!(spans[1].style.fg, Some(InlineColor::Rgb(0xBF, 0x45, 0x45)));
    assert!(spans[2].style.italic);
}

#[test]
fn tool_detail_renders_with_border_and_body_style() {
    let theme = themed_inline_colors();
    let mut session = Session::new(theme, None, VIEW_ROWS, true);
    let mut detail_style = InlineTextStyle::default();
    detail_style.italic = true;
    session.push_line(
        InlineMessageKind::Tool,
        vec![InlineSegment { text: "    result line".to_string(), style: detail_style }],
    );

    let line = session.line(session.line_count() - 1);
    let labels = MessageLabels { agent: None, user: None };
    let spans = render_message_spans(&theme, &labels, &line);

    assert!(spans.len() >= 2);
    let border_span = &spans[0];
    assert_eq!(border_span.text, format!("{} ", TOOL_BORDER_SYMBOL));
    assert_eq!(border_span.style.fg, Some(InlineColor::Rgb(0x77, 0x99, 0xAA)));
    assert!(border_span.style.dim, "tool border should use dimmed styling");

    let body_span = &spans[1];
    assert!(body_span.style.italic);
    assert_eq!(body_span.text, "result line");
}

#[test]
fn typing_and_submitting_hands_the_text_on() {
    let mut session = Session::new(InlineTheme::default(), None, VIEW_ROWS, true);
    for ch in "héllo".chars() {
        assert!(session.process_key(key(KeyCode::Char(ch), KeyModifiers::none())).is_none());
    }
    assert_eq!(session.input(), "héllo");
    assert_eq!(session.cursor(), 5);
    session.process_key(key(KeyCode::Left, KeyModifiers::none()));
    session.process_key(key(KeyCode::Backspace, KeyModifiers::none()));
    assert_eq!(session.input(), "hélo");
    assert_eq!(session.cursor(), 3);
    match session.process_key(key(KeyCode::Enter, KeyModifiers::none())) {
        Some(InlineEvent::Submit(text)) => assert_eq!(text, "hélo"),
        other => panic!("unexpected {other:?}"),
    }
    assert_eq!(session.input(), "");
    assert_eq!(session.cursor(), 0);
}

#[test]
fn control_keys_interrupt_and_exit() {
    let mut session = Session::new(InlineTheme::default(), None, VIEW_ROWS, true);
    assert!(matches!(
        session.process_key(key(KeyCode::Char('c'), control())),
        Some(InlineEvent::Interrupt)
    ));
    assert!(!session.should_exit());
    assert!(matches!(
        session.process_key(key(KeyCode::Char('d'), control())),
        Some(InlineEvent::Exit)
    ));
    assert!(!session.should_exit());
    assert!(session.take_redraw());
}

#[test]
fn escape_cancels_and_scroll_keys_scroll() {
    let mut session = Session::new(InlineTheme::default(), None, VIEW_ROWS, true);
    for index in 0..40 {
        session.push_line(InlineMessageKind::Info, vec![make_segment(&format!("row {index}"))]);
    }
    assert!(matches!(
        session.process_key(key(KeyCode::Esc, KeyModifiers::none())),
        Some(InlineEvent::Cancel)
    ));
    assert!(matches!(
        session.process_key(key(KeyCode::PageUp, KeyModifiers::none())),
        Some(InlineEvent::ScrollPageUp)
    ));
    let paged = session.scroll_offset();
    assert_eq!((paged, session.viewport_height(), session.current_max_scroll_offset()), (7, 7, 33));
    assert!(matches!(
        session.process_key(key(KeyCode::Up, KeyModifiers::none())),
        Some(InlineEvent::ScrollLineUp)
    ));
    assert_eq!(session.scroll_offset(), paged + 1);
    assert!(matches!(
        session.process_key(key(KeyCode::Down, KeyModifiers::none())),
        Some(InlineEvent::ScrollLineDown)
    ));
    assert!(matches!(
        session.process_key(key(KeyCode::PageDown, KeyModifiers::none())),
        Some(InlineEvent::ScrollPageDown)
    ));
    assert_eq!(session.scroll_offset(), 0);
}

#[test]
fn released_keys_and_other_events_do_nothing() {
    let mut session = Session::new(InlineTheme::default(), None, VIEW_ROWS, true);
    let mut released = key(KeyCode::Char('x'), KeyModifiers::none());
    released.kind = vtcode_core::ui::tui::session::KeyEventKind::Release;
    assert!(session.handle_event(TerminalEvent::Key(released)).is_none());
    assert_eq!(session.input(), "");
    assert!(session.handle_event(TerminalEvent::Other).is_none());
    assert!(session.handle_event(TerminalEvent::Resize(80, 30)).is_none());
    assert!(session.take_redraw());
}

#[test]
fn modal_captures_input_until_escape() {
    let mut session = Session::new(InlineTheme::default(), None, VIEW_ROWS, true);
    session.handle_command(InlineCommand::ShowModal {
        title: "Notice".to_string(),
        lines: vec!["one".to_string(), "two".to_string()],
    });
    assert!(session.has_modal());
    assert!(!session.input_enabled());
    assert!(session.process_key(key(KeyCode::Char('x'), KeyModifiers::none())).is_none());
    assert_eq!(session.input(), "");
    assert_eq!(session.modal_text().map(|(title, lines)| (title, lines.len())), Some(("Notice".to_string(), 2)));
    session.process_key(key(KeyCode::Esc, KeyModifiers::none()));
    assert!(!session.has_modal());
    assert!(session.input_enabled());
}

#[test]
fn shutdown_asks_to_leave() {
    let mut session = Session::new(InlineTheme::default(), None, VIEW_ROWS, true);
    assert!(session.take_redraw());
    assert!(!session.take_redraw());
    session.handle_command(InlineCommand::Shutdown);
    assert!(session.should_exit());
}

#[test]
fn appended_text_follows_line_feeds_and_carriage_returns() {
    let mut session = Session::new(InlineTheme::default(), None, VIEW_ROWS, true);
    session.append_inline(InlineMessageKind::Agent, make_segment("ab\ncd\rxy\r\nz"));
    let texts: Vec<String> = (0..session.line_count())
        .map(|index| session.line(index).segments.iter().map(|s| s.text.as_str()).collect())
        .collect();
    assert_eq!(texts, vec!["ab".to_string(), "xy".to_string(), "z".to_string()]);
    session.append_inline(InlineMessageKind::Tool, make_segment("t"));
    assert_eq!(session.line_count(), 4);
    assert_eq!(session.line(3).kind, InlineMessageKind::Tool);
}

#[test]
fn replace_last_swaps_the_tail() {
    let mut session = Session::new(InlineTheme::default(), None, VIEW_ROWS, true);
    for text in ["a", "b", "c"] {
        session.push_line(InlineMessageKind::Info, vec![make_segment(text)]);
    }
    session.replace_last(
        2,
        InlineMessageKind::Error,
        vec![vec![make_segment("x")], vec![make_segment("y")], vec![make_segment("z")]],
    );
    assert_eq!(session.line_count(), 4);
    assert_eq!(session.line(0).kind, InlineMessageKind::Info);
    assert_eq!(session.line(1).segments[0].text, "x");
    assert_eq!(session.line(3).kind, InlineMessageKind::Error);
    session.replace_last(10, InlineMessageKind::Info, Vec::new());
    assert_eq!(session.line_count(), 0);
}

#[test]
fn reflow_gives_the_same_rows_for_the_same_width() {
    let mut session = Session::new(InlineTheme::default(), None, VIEW_ROWS, true);
    session.push_line(InlineMessageKind::Agent, vec![make_segment(&"word ".repeat(30))]);
    session.push_line(InlineMessageKind::User, vec![make_segment("question")]);
    let texts = |rows: Vec<Vec<StyledSpan>>| -> Vec<String> {
        rows.iter().map(|row| line_text(row)).collect()
    };
    let first = texts(session.reflow_transcript_lines(24));
    let second = texts(session.reflow_transcript_lines(24));
    assert_eq!(first, second);
    let narrow = texts(session.reflow_transcript_lines(12));
    assert!(narrow.len() > first.len());
    let back = texts(session.reflow_transcript_lines(24));
    assert_eq!(back, first);
}

#[test]
fn resize_keeps_the_tail_in_view() {
    let mut session = Session::new(InlineTheme::default(), None, 24, false);
    for index in 0..200 {
        session.push_line(
            InlineMessageKind::Agent,
            vec![make_segment(&format!("entry {index} {}", "x".repeat(60)))],
        );
    }
    let wide = draw(&mut session, 80, 24);
    assert!(wide.last().unwrap().contains("x"));
    assert!(wide.iter().any(|row| row.contains("entry 199")), "{wide:?}");
    let narrow = draw(&mut session, 50, 24);
    assert_eq!(session.scroll_offset(), 0);
    assert!(narrow.iter().any(|row| row.contains("x")));
    let all = session.reflow_transcript_lines(session.transcript_width());
    let tail: Vec<String> =
        all[all.len() - narrow.len()..].iter().map(|row| line_text(row).trim_end().to_string()).collect();
    assert_eq!(narrow, tail);
}

#[test]
fn slash_prefix_brings_suggestions() {
    let mut session = Session::new(InlineTheme::default(), None, VIEW_ROWS, true);
    session.process_key(key(KeyCode::Char('/'), KeyModifiers::none()));
    assert_eq!(session.slash_suggestions().len(), 8);
    session.process_key(key(KeyCode::Char('t'), KeyModifiers::none()));
    session.process_key(key(KeyCode::Char('h'), KeyModifiers::none()));
    assert_eq!(session.current_slash_prefix().as_deref(), Some("th"));
    assert_eq!(session.slash_suggestions().len(), 1);
    assert_eq!(session.slash_list_items().len(), 1);
    session.process_key(key(KeyCode::Tab, KeyModifiers::none()));
    assert_eq!(session.input(), "/theme ");
    assert!(session.slash_suggestions().is_empty());
}

#[test]
fn navigation_rows_number_and_preview_the_lines() {
    let mut session = Session::new(InlineTheme::default(), None, VIEW_ROWS, true);
    session.push_line(InlineMessageKind::User, vec![make_segment("  first\nline  "), make_segment("next")]);
    session.push_line(InlineMessageKind::Agent, vec![make_segment(&"y".repeat(80))]);
    let rows = session.navigation_items();
    assert_eq!(rows.len(), 2);
    let first = line_text(&rows[0]);
    assert!(first.contains("01"));
    assert!(first.ends_with("first line next"));
    let second = line_text(&rows[1]);
    assert!(second.contains("02"));
    assert!(second.ends_with(&format!("{}…", "y".repeat(56))));
}

#[test]
fn resize_clamps_the_scroll_offset_and_shows_the_tail() {
    let mut session = Session::new(InlineTheme::default(), None, 8, false);
    for index in 0..40 {
        session.push_line(InlineMessageKind::Info, vec![make_segment(&format!("l{index}"))]);
    }
    draw(&mut session, 10, 8);
    for _ in 0..100 {
        let previous = session.scroll_offset();
        session.scroll_page_up();
        if session.scroll_offset() == previous {
            break;
        }
    }
    let top = session.scroll_offset();
    assert!(top > 0);
    assert_eq!(top, session.current_max_scroll_offset());

    draw(&mut session, 40, 20);
    let held = session.scroll_offset();
    assert!(held <= top);
    assert_eq!(held, session.current_max_scroll_offset());

    let view = draw(&mut session, 40, 60);
    assert_eq!(session.scroll_offset(), 0);
    assert_eq!(session.current_max_scroll_offset(), 0);
    assert!(view.last().map_or(false, |row| row.contains("l39")), "{view:?}");
    assert!(view.iter().any(|row| row.contains("l0")));
}

#[test]
fn appended_lines_keep_a_view_at_the_bottom_pinned() {
    let mut session = Session::new(InlineTheme::default(), None, VIEW_ROWS, true);
    for index in 0..30 {
        session.push_line(InlineMessageKind::Info, vec![make_segment(&format!("row {index}"))]);
        assert_eq!(session.scroll_offset(), 0);
    }
    let view = visible_transcript(&mut session);
    assert!(view.last().map_or(false, |row| row.contains("row 29")), "{view:?}");
    session.scroll_line_up();
    session.scroll_line_up();
    let before = visible_transcript(&mut session);
    session.push_line(InlineMessageKind::Info, vec![make_segment("new")]);
    session.push_line(InlineMessageKind::Info, vec![make_segment("newer")]);
    assert_eq!(session.scroll_offset(), 4);
    assert_eq!(visible_transcript(&mut session), before);
}

#[test]
fn streamed_line_feeds_keep_a_scrolled_window() {
    let mut session = Session::new(InlineTheme::default(), None, VIEW_ROWS, true);
    for index in 0..30 {
        session.push_line(InlineMessageKind::Agent, vec![make_segment(&format!("row {index}"))]);
    }
    visible_transcript(&mut session);
    session.scroll_line_up();
    session.scroll_line_up();
    let before = visible_transcript(&mut session);
    let offset = session.scroll_offset();
    let max = session.current_max_scroll_offset();
    session.append_inline(InlineMessageKind::Agent, make_segment("\n"));
    assert_eq!(session.scroll_offset(), offset + 1);
    assert_eq!(session.current_max_scroll_offset(), max + 1);
    session.append_inline(InlineMessageKind::Agent, make_segment("more\nand more\nlines"));
    assert_eq!(session.scroll_offset(), offset + 3);
    assert_eq!(session.current_max_scroll_offset(), max + 3);
    assert_eq!(visible_transcript(&mut session), before);
}
