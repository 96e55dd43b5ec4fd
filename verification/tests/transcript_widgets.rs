use vtcode_core::ui::tui::prompt::ScrollAction;
use vtcode_core::ui::tui::style::StyledSpan;
use vtcode_core::ui::tui::transcript::{Transcript, TranscriptBuffer, TranscriptView};
use vtcode_core::ui::tui::types::{
    InlineColor, InlineMessageKind, InlineSegment, InlineTextStyle, InlineTheme,
};

fn segment(text: &str) -> InlineSegment {
    InlineSegment { text: text.to_string(), style: InlineTextStyle::default() }
}

fn row_texts(rows: &[Vec<StyledSpan>]) -> Vec<String> {
    rows.iter().map(|row| row.iter().map(|span| span.text.as_str()).collect()).collect()
}

fn line_texts(buffer: &TranscriptBuffer) -> Vec<String> {
    buffer
        .lines
        .iter()
        .map(|line| line.segments.iter().map(|segment| segment.text.as_str()).collect())
        .collect()
}

#[test]
fn streamed_text_follows_line_feeds_and_carriage_returns() {
    let mut buffer = TranscriptBuffer::new();
    buffer.append_inline(InlineMessageKind::Agent, segment("ab\ncd\rxy\r\nz"));
    assert_eq!(line_texts(&buffer), vec!["ab", "xy", "z"]);
    buffer.append_inline(InlineMessageKind::Agent, segment("!"));
    assert_eq!(line_texts(&buffer), vec!["ab", "xy", "z!"]);
    assert_eq!(buffer.lines[2].segments.len(), 1);
    let bold = InlineSegment {
        text: "B".to_string(),
        style: InlineTextStyle { color: None, bold: true, italic: false },
    };
    buffer.append_inline(InlineMessageKind::Agent, bold);
    assert_eq!(buffer.lines[2].segments.len(), 2);
    buffer.append_inline(InlineMessageKind::Tool, segment("t"));
    assert_eq!(buffer.lines.len(), 4);
    buffer.append_inline(InlineMessageKind::Tool, segment(""));
    assert_eq!(buffer.lines.len(), 4);
}

#[test]
fn scrolling_stays_within_the_lines() {
    let mut buffer = TranscriptBuffer::new();
    for index in 0..10 {
        buffer.push_line(InlineMessageKind::Info, vec![segment(&format!("l{index}"))]);
    }
    buffer.set_viewport_height(4);
    assert_eq!(buffer.visible_range(), (6, 10));
    buffer.scroll(ScrollAction::LineUp);
    assert_eq!(buffer.visible_range(), (5, 9));
    buffer.scroll(ScrollAction::PageUp);
    assert_eq!(buffer.scroll_offset, 5);
    buffer.scroll(ScrollAction::PageUp);
    buffer.scroll(ScrollAction::PageUp);
    assert_eq!(buffer.scroll_offset, 10);
    assert_eq!(buffer.visible_range(), (0, 0));
    buffer.scroll(ScrollAction::LineUp);
    assert_eq!(buffer.scroll_offset, 10);
    buffer.scroll(ScrollAction::PageDown);
    assert_eq!(buffer.scroll_offset, 6);
    buffer.scroll(ScrollAction::LineDown);
    assert_eq!(buffer.scroll_offset, 5);
    buffer.scroll(ScrollAction::PageDown);
    buffer.scroll(ScrollAction::PageDown);
    assert_eq!(buffer.scroll_offset, 0);
    buffer.scroll(ScrollAction::LineDown);
    assert_eq!(buffer.scroll_offset, 0);
}

#[test]
fn a_scrolled_window_stays_on_its_lines() {
    let mut buffer = TranscriptBuffer::new();
    for index in 0..6 {
        buffer.push_line(InlineMessageKind::Info, vec![segment(&format!("l{index}"))]);
    }
    buffer.set_viewport_height(2);
    buffer.scroll(ScrollAction::LineUp);
    buffer.scroll(ScrollAction::LineUp);
    let before = buffer.visible_range();
    buffer.push_line(InlineMessageKind::Info, vec![segment("new")]);
    assert_eq!(buffer.scroll_offset, 3);
    assert_eq!(buffer.visible_range(), before);
    buffer.replace_last(5, InlineMessageKind::Error, vec![vec![segment("x")]]);
    assert_eq!(line_texts(&buffer), vec!["l0", "l1", "x"]);
    assert_eq!(buffer.lines[2].kind, InlineMessageKind::Error);
    assert_eq!(buffer.scroll_offset, 3);
    buffer.replace_last(9, InlineMessageKind::Info, Vec::new());
    assert!(buffer.lines.is_empty());
    assert_eq!(buffer.scroll_offset, 0);
}

#[test]
fn labelled_widget_puts_labels_before_lines() {
    let mut theme = InlineTheme::default();
    theme.primary = Some(InlineColor::Rgb(1, 2, 3));
    theme.secondary = Some(InlineColor::Rgb(4, 5, 6));
    let mut view = TranscriptView::new(theme);
    assert_eq!(row_texts(&view.render(3)), vec![""]);
    view.push_line(InlineMessageKind::User, vec![segment("hi")]);
    view.push_line(InlineMessageKind::Agent, vec![segment("hello")]);
    view.push_line(InlineMessageKind::Info, vec![segment("note")]);
    view.push_line(InlineMessageKind::Tool, Vec::new());
    let rows = view.render(10);
    assert_eq!(row_texts(&rows), vec!["> hi", "● hello", "note", "● "]);
    assert_eq!(rows[0][0].style.fg, Some(InlineColor::Rgb(4, 5, 6)));
    assert_eq!(rows[1][0].style.fg, Some(InlineColor::Rgb(1, 2, 3)));
    assert_eq!(rows[1][1].style.fg, Some(InlineColor::Rgb(1, 2, 3)));
    assert_eq!(rows[2][0].style.fg, None);
    view.set_labels(Some("Bot".to_string()), Some(String::new()));
    assert_eq!(row_texts(&view.render(2)), vec!["note", "● "]);
    view.scroll(ScrollAction::PageUp);
    assert_eq!(row_texts(&view.render(2)), vec!["> hi", "Bothello"]);
}

#[test]
fn marked_widget_takes_no_labels() {
    let mut view = Transcript::new(InlineTheme::default());
    view.set_labels(Some("Bot".to_string()), Some("Me".to_string()));
    view.push_line(InlineMessageKind::User, vec![segment("hi")]);
    view.push_line(InlineMessageKind::Agent, vec![segment("hello")]);
    view.push_line(InlineMessageKind::Error, vec![segment("oops")]);
    view.append_inline(InlineMessageKind::Error, segment("!\nnext"));
    let rows = view.render(0);
    assert_eq!(row_texts(&rows), vec!["● next"]);
    assert_eq!(rows[0][0].style.fg, Some(InlineColor::Ansi(15)));
    assert_eq!(row_texts(&view.render(9)), vec!["> hi", "hello", "● oops!", "● next"]);
}
