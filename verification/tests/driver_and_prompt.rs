use vtcode_core::config::acp::{parse_env_bool, AgentClientProtocolConfig};
use vtcode_core::config::context::{ContextCurationConfig, ContextFeaturesConfig};
use vtcode_core::ui::tui::driver::{
    after_drain, drain_command, input_step, CommandPoll, InputPoll, TerminalSurface,
    UiSurfacePreference,
};
use vtcode_core::ui::tui::prompt::{Action, InputBuffer, Key, PromptBar, ScrollAction};
use vtcode_core::ui::tui::session::{KeyCode, KeyEvent, KeyModifiers, Session, TerminalEvent};
use vtcode_core::ui::tui::types::{
    InlineCommand, InlineEvent, InlineMessageKind, InlineSegment, InlineTextStyle, InlineTheme,
};

#[test]
fn surface_takes_the_terminal_size_where_it_can() {
    let auto = TerminalSurface::detect(UiSurfacePreference::Auto, 10, true, Some((80, 40)));
    assert_eq!(auto.rows(), 40);
    assert!(auto.use_alternate());
    let inline = TerminalSurface::detect(UiSurfacePreference::Inline, 10, true, Some((80, 40)));
    assert!(!inline.use_alternate());
    let piped = TerminalSurface::detect(UiSurfacePreference::Alternate, 30, false, Some((80, 40)));
    assert_eq!(piped.rows(), 30);
    assert!(!piped.use_alternate());
    let unknown = TerminalSurface::detect(UiSurfacePreference::Auto, 4, true, None);
    assert_eq!(unknown.rows(), 16);
    let zero = TerminalSurface::detect(UiSurfacePreference::Auto, 0, true, Some((80, 0)));
    assert_eq!(zero.rows(), 16);
}

#[test]
fn loop_drains_draws_and_ends_on_shutdown_only() {
    let mut session = Session::new(InlineTheme::default(), None, 20, false);
    let first = after_drain(&mut session);
    assert!(first.redraw);
    assert!(!first.exit);
    let segment = InlineSegment { text: "hi".to_string(), style: InlineTextStyle::default() };
    assert!(drain_command(
        &mut session,
        CommandPoll::Command(InlineCommand::AppendLine {
            kind: InlineMessageKind::Agent,
            segments: vec![segment],
        }),
    ));
    assert!(!drain_command(&mut session, CommandPoll::Empty));
    assert!(!drain_command(&mut session, CommandPoll::Disconnected));
    let drawn = after_drain(&mut session);
    assert!(drawn.redraw);
    assert!(!drawn.exit);
    assert_eq!(session.line_count(), 1);

    let closed = input_step(&mut session, InputPoll::Closed);
    assert!(closed.event.is_none());
    assert!(!closed.next.exit);
    assert!(!closed.next.redraw);
    let idle = input_step(&mut session, InputPoll::Timeout);
    assert!(!idle.next.exit);

    let typed = input_step(
        &mut session,
        InputPoll::Event(TerminalEvent::Key(KeyEvent::new(KeyCode::Char('a'), KeyModifiers::none()))),
    );
    assert!(typed.event.is_none());
    assert!(typed.next.redraw);
    let sent = input_step(
        &mut session,
        InputPoll::Event(TerminalEvent::Key(KeyEvent::new(KeyCode::Enter, KeyModifiers::none()))),
    );
    assert!(matches!(sent.event, Some(InlineEvent::Submit(text)) if text == "a"));

    assert!(drain_command(&mut session, CommandPoll::Command(InlineCommand::Shutdown)));
    let last = after_drain(&mut session);
    assert!(last.exit);
}

#[test]
fn switches_read_the_usual_words() {
    assert!(parse_env_bool(Some("1"), false));
    assert!(parse_env_bool(Some(" TRUE "), false));
    assert!(parse_env_bool(Some("yes"), false));
    assert!(parse_env_bool(Some("on"), false));
    assert!(!parse_env_bool(Some("0"), true));
    assert!(!parse_env_bool(Some("off"), true));
    assert!(parse_env_bool(Some("maybe"), true));
    assert!(!parse_env_bool(Some("maybe"), false));
    assert!(parse_env_bool(None, true));
    let config = AgentClientProtocolConfig::from_env(Some("true"), None, Some("false"), None);
    assert!(config.enabled);
    assert!(config.zed.enabled);
    assert!(!config.zed.tools.read_file);
    assert!(config.zed.tools.list_files);
    let off = AgentClientProtocolConfig::default();
    assert!(!off.enabled);
    assert!(!off.zed.enabled);
}

#[test]
fn context_defaults() {
    let curation = ContextCurationConfig::default();
    assert!(curation.enabled);
    assert_eq!(curation.max_tokens_per_turn, 100_000);
    assert_eq!(curation.preserve_recent_messages, 5);
    assert_eq!(curation.max_tool_descriptions, 10);
    let features = ContextFeaturesConfig::default();
    assert_eq!(features.max_context_tokens, 90_000);
    assert_eq!(features.trim_to_percent, 80);
    assert_eq!(features.preserve_recent_turns, 12);
    assert!(features.ledger.enabled);
    assert_eq!(features.ledger.max_entries, 12);
}

#[test]
fn input_buffer_edits_at_the_cursor() {
    let mut buffer = InputBuffer::new();
    assert!(buffer.is_empty());
    for ch in "abc".chars() {
        buffer.insert(ch);
    }
    buffer.move_left();
    buffer.insert('X');
    assert_eq!(buffer.text(), "abXc");
    assert_eq!(buffer.cursor(), 3);
    buffer.backspace();
    assert_eq!(buffer.text(), "abc");
    buffer.delete();
    assert_eq!(buffer.text(), "ab");
    buffer.delete();
    assert_eq!(buffer.text(), "ab");
    buffer.move_home();
    buffer.backspace();
    assert_eq!(buffer.text(), "ab");
    buffer.move_right();
    assert_eq!(buffer.prefix(), "a");
    buffer.move_end();
    assert_eq!(buffer.cursor(), 2);
    buffer.clear();
    assert!(buffer.is_empty());
    let held = InputBuffer::with_text("xy", 9);
    assert_eq!(held.cursor(), 2);
}

#[test]
fn prompt_bar_turns_keys_into_actions() {
    let mut bar = PromptBar::new(InlineTheme::default(), Some("ask".to_string()));
    assert!(matches!(bar.handle_key(Key::Char('h')), Action::Redraw));
    assert!(matches!(bar.handle_key(Key::Char('i')), Action::Redraw));
    assert!(matches!(bar.handle_key(Key::Char('\n')), Action::Submit(text) if text == "hi"));
    assert!(bar.input.is_empty());
    assert!(matches!(bar.handle_key(Key::Esc), Action::Cancel));
    assert!(matches!(bar.handle_key(Key::Ctrl('c')), Action::Interrupt));
    assert!(matches!(bar.handle_key(Key::Ctrl('d')), Action::Exit));
    assert!(matches!(bar.handle_key(Key::PageUp), Action::Scroll(ScrollAction::PageUp)));
    assert!(matches!(bar.handle_key(Key::Up), Action::Scroll(ScrollAction::LineUp)));
    bar.set_input_enabled(false);
    assert!(matches!(bar.handle_key(Key::Char('x')), Action::Nothing));
    assert!(!bar.shows_cursor());
}
