//! The inline session: a state machine that owns the transcript, the
//! input, the slash suggestions, a modal and the scroll position. It takes
//! commands and terminal events, and hands out what a renderer draws.

use crate::config::constants::{
    INLINE_AGENT_MESSAGE_LEFT_PADDING, INLINE_AGENT_QUOTE_PREFIX, INLINE_HEADER_HEIGHT,
    INLINE_INPUT_HEIGHT, INLINE_USER_MESSAGE_DIVIDER_SYMBOL, SLASH_SUGGESTION_LIMIT,
};
use crate::llm::provider::{duplicate_opt_text, opt_text};
use crate::text::{
    char_is_whitespace, chars_of, first_non_ws, slice_chars, string_of, text_views,
    trim_start_index,
};
use crate::ui::tui::style::{
    color_or, duplicate_row, first_color, row_views, span_views, SpanStyle, StyledSpan,
    StyledSpanV,
};
use crate::ui::tui::types::{
    duplicate_segments, segment_views, InlineColor, InlineHeaderContext, InlineHeaderContextV,
    InlineMessageKind, InlineSegment, InlineSegmentV, InlineTextStyle, InlineTheme,
};
use crate::ui::tui::wrap::{wrap_line, wrapped};
use vstd::prelude::*;

verus! {

/// The prefix of a user's line when no label is set.
pub const USER_PREFIX: &'static str = "> ";

/// The mark at the left of a tool's detail line.
pub const TOOL_BORDER_SYMBOL: &'static str = "│";

/// Model of a [`MessageLine`].
pub struct MessageLineV {
    pub kind: InlineMessageKind,
    pub segments: Seq<InlineSegmentV>,
    pub revision: u64,
}

/// A line of the transcript. The revision changes with every change of
/// the line.
#[derive(Debug)]
pub struct MessageLine {
    pub kind: InlineMessageKind,
    pub segments: Vec<InlineSegment>,
    pub revision: u64,
}

impl View for MessageLine {
    type V = MessageLineV;

    open spec fn view(&self) -> MessageLineV {
        MessageLineV {
            kind: self.kind,
            segments: segment_views(self.segments@),
            revision: self.revision,
        }
    }
}

/// The models of a sequence of lines.
pub open spec fn line_views(lines: Seq<MessageLine>) -> Seq<MessageLineV> {
    Seq::new(lines.len(), |i: int| lines[i]@)
}

/// The labels shown before the lines of the agent and of the user.
#[derive(Debug)]
pub struct MessageLabels {
    pub agent: Option<String>,
    pub user: Option<String>,
}

/// Model of [`MessageLabels`].
pub struct MessageLabelsV {
    pub agent: Option<Seq<char>>,
    pub user: Option<Seq<char>>,
}

impl View for MessageLabels {
    type V = MessageLabelsV;

    open spec fn view(&self) -> MessageLabelsV {
        MessageLabelsV { agent: opt_text(self.agent), user: opt_text(self.user) }
    }
}

/// Model of a [`ModalState`].
pub struct ModalStateV {
    pub title: Seq<char>,
    pub lines: Seq<Seq<char>>,
    pub restore_input: bool,
    pub restore_cursor: bool,
}

/// A modal that is open: what it shows, and what the input was like
/// before it opened.
#[derive(Debug)]
pub struct ModalState {
    pub title: String,
    pub lines: Vec<String>,
    pub restore_input: bool,
    pub restore_cursor: bool,
}

impl View for ModalState {
    type V = ModalStateV;

    open spec fn view(&self) -> ModalStateV {
        ModalStateV {
            title: self.title@,
            lines: text_views(self.lines@),
            restore_input: self.restore_input,
            restore_cursor: self.restore_cursor,
        }
    }
}

/// The fallback colour of the text of a kind of line.
pub open spec fn text_fallback_of(theme: InlineTheme, kind: InlineMessageKind) -> Option<
    InlineColor,
> {
    match kind {
        InlineMessageKind::User => color_or(theme.secondary, theme.foreground),
        InlineMessageKind::Info => theme.foreground,
        _ => color_or(theme.primary, theme.foreground),
    }
}

/// The text shown before a line of a kind: the user's label or the
/// default prefix for the user, the agent's label for policy lines,
/// nothing for any other.
pub open spec fn prefix_text_of(labels: MessageLabelsV, kind: InlineMessageKind) -> Option<
    Seq<char>,
> {
    match kind {
        InlineMessageKind::User => Some(
            match labels.user {
                Some(l) => l,
                None => USER_PREFIX@,
            },
        ),
        InlineMessageKind::Policy => labels.agent,
        _ => None,
    }
}

/// The colour of the first segment from index `i` on that has one.
pub open spec fn segment_color_from(segments: Seq<InlineSegmentV>, i: int) -> Option<InlineColor>
    decreases segments.len() - i,
{
    if 0 <= i < segments.len() {
        if segments[i].style.color is Some {
            segments[i].style.color
        } else {
            segment_color_from(segments, i + 1)
        }
    } else {
        None
    }
}

/// The style of the prefix of a line: the colour of its first coloured
/// segment, or else the fallback of its kind.
pub open spec fn prefix_style_of(theme: InlineTheme, line: MessageLineV) -> InlineTextStyle {
    InlineTextStyle {
        color: color_or(
            segment_color_from(line.segments, 0),
            color_or(text_fallback_of(theme, line.kind), theme.foreground),
        ),
        bold: false,
        italic: false,
    }
}

/// A span of text in an inline style.
pub open spec fn inline_span(text: Seq<char>, style: InlineTextStyle, fallback: Option<
    InlineColor,
>) -> StyledSpanV {
    StyledSpanV { text, style: SpanStyle::of_inline(style, fallback) }
}

/// A span of text in the style that changes nothing.
pub open spec fn raw_span(text: Seq<char>) -> StyledSpanV {
    StyledSpanV { text, style: SpanStyle::plain() }
}

/// The texts of the segments from index `i` on, one after another.
pub open spec fn segments_text_from(segments: Seq<InlineSegmentV>, i: int, acc: Seq<char>) -> Seq<
    char,
>
    decreases segments.len() - i,
{
    if 0 <= i < segments.len() {
        segments_text_from(segments, i + 1, acc + segments[i].text)
    } else {
        acc
    }
}

/// Whether one of the first `n` segments is italic.
pub open spec fn any_italic_within(segments: Seq<InlineSegmentV>, n: int) -> bool {
    exists|i: int| 0 <= i < n && i < segments.len() && (#[trigger] segments[i]).style.italic
}

/// Index of the first whitespace character at or after `from`, or the
/// length of the text when there is none.
pub open spec fn first_ws(text: Seq<char>, from: int) -> int
    decreases text.len() - from,
{
    if 0 <= from < text.len() && !char_is_whitespace(text[from]) {
        first_ws(text, from + 1)
    } else {
        from
    }
}

/// The spans of a tool's detail line: the border mark, dimmed, and the
/// text without its indent, italic.
pub open spec fn tool_detail_spans(theme: InlineTheme, text: Seq<char>) -> Seq<StyledSpanV> {
    seq![
        StyledSpanV {
            text: TOOL_BORDER_SYMBOL@ + " "@,
            style: SpanStyle {
                dim: true,
                ..SpanStyle::of_inline(
                    InlineTextStyle {
                        color: color_or(theme.secondary, theme.foreground),
                        bold: false,
                        italic: false,
                    },
                    theme.foreground,
                )
            },
        },
        inline_span(
            text.subrange(first_non_ws(text, 0), text.len() as int),
            InlineTextStyle {
                color: color_or(theme.tool_body, theme.foreground),
                bold: false,
                italic: true,
            },
            theme.foreground,
        ),
    ]
}

/// The spans of a tool's header line: its indent, its first word in the
/// accent colour and bold, and the rest italic; empty parts are left out.
pub open spec fn tool_header_spans(theme: InlineTheme, text: Seq<char>) -> Seq<StyledSpanV> {
    let indent_end = first_non_ws(text, 0);
    let name_end = first_ws(text, indent_end);
    let indent = if indent_end > 0 {
        seq![
            inline_span(
                text.subrange(0, indent_end),
                InlineTextStyle {
                    color: color_or(theme.tool_body, theme.foreground),
                    bold: false,
                    italic: false,
                },
                theme.foreground,
            ),
        ]
    } else {
        Seq::empty()
    };
    let name = if name_end > indent_end {
        indent.push(
            inline_span(
                text.subrange(indent_end, name_end),
                InlineTextStyle {
                    color: color_or(theme.tool_accent, color_or(theme.primary, theme.foreground)),
                    bold: true,
                    italic: false,
                },
                theme.foreground,
            ),
        )
    } else {
        indent
    };
    if name_end < text.len() && indent_end < text.len() {
        name.push(
            inline_span(
                text.subrange(name_end, text.len() as int),
                InlineTextStyle {
                    color: color_or(theme.tool_body, theme.foreground),
                    bold: false,
                    italic: true,
                },
                theme.foreground,
            ),
        )
    } else {
        name
    }
}

/// The spans of the segments of a tool's line: none for no text, those
/// of a detail line where a segment is italic, else those of a header
/// line.
pub open spec fn tool_spans(theme: InlineTheme, line: MessageLineV) -> Seq<StyledSpanV> {
    let combined = segments_text_from(line.segments, 0, Seq::empty());
    if combined.len() == 0 {
        Seq::empty()
    } else if any_italic_within(line.segments, line.segments.len() as int) {
        tool_detail_spans(theme, combined)
    } else {
        tool_header_spans(theme, combined)
    }
}

/// What stands before the segments of a line: for the agent its label,
/// where it has one, and the left padding; for any other kind its
/// prefix, where it has one.
pub open spec fn head_spans(theme: InlineTheme, labels: MessageLabelsV, line: MessageLineV)
    -> Seq<StyledSpanV> {
    if line.kind == InlineMessageKind::Agent {
        let quote = if INLINE_AGENT_QUOTE_PREFIX@.len() > 0 {
            seq![
                inline_span(
                    INLINE_AGENT_QUOTE_PREFIX@,
                    prefix_style_of(theme, line),
                    theme.foreground,
                ),
            ]
        } else {
            Seq::empty()
        };
        let label = match labels.agent {
            Some(l) => if l.len() > 0 {
                quote.push(inline_span(l, prefix_style_of(theme, line), theme.foreground))
            } else {
                quote
            },
            None => quote,
        };
        label.push(raw_span(INLINE_AGENT_MESSAGE_LEFT_PADDING@))
    } else {
        match prefix_text_of(labels, line.kind) {
            Some(p) => seq![inline_span(p, prefix_style_of(theme, line), theme.foreground)],
            None => Seq::empty(),
        }
    }
}

/// The spans of the segments of a line from index `i` on, added to `acc`.
pub open spec fn segment_spans_from(
    segments: Seq<InlineSegmentV>,
    i: int,
    fallback: Option<InlineColor>,
    acc: Seq<StyledSpanV>,
) -> Seq<StyledSpanV>
    decreases segments.len() - i,
{
    if 0 <= i < segments.len() {
        segment_spans_from(
            segments,
            i + 1,
            fallback,
            acc.push(inline_span(segments[i].text, segments[i].style, fallback)),
        )
    } else {
        acc
    }
}

/// The spans of a line of the transcript, never none.
pub open spec fn message_spans(theme: InlineTheme, labels: MessageLabelsV, line: MessageLineV)
    -> Seq<StyledSpanV> {
    let head = head_spans(theme, labels, line);
    if line.segments.len() == 0 {
        if head.len() == 0 {
            seq![raw_span(Seq::empty())]
        } else {
            head
        }
    } else if line.kind == InlineMessageKind::Tool {
        let tool = tool_spans(theme, line);
        if tool.len() == 0 {
            head.push(raw_span(Seq::empty()))
        } else {
            head + tool
        }
    } else {
        segment_spans_from(
            line.segments,
            0,
            color_or(text_fallback_of(theme, line.kind), theme.foreground),
            head,
        )
    }
}

/// `symbol`, `n` times over, added to `acc`.
pub open spec fn repeated_from(symbol: Seq<char>, n: int, acc: Seq<char>) -> Seq<char>
    decreases n,
{
    if n > 0 {
        repeated_from(symbol, n - 1, acc + symbol)
    } else {
        acc
    }
}

/// The divider above and below a user's line: the divider symbol across
/// the width, in the accent colour.
pub open spec fn divider_row(theme: InlineTheme, width: usize) -> Seq<StyledSpanV> {
    seq![
        inline_span(
            repeated_from(INLINE_USER_MESSAGE_DIVIDER_SYMBOL@, width as int, Seq::empty()),
            InlineTextStyle {
                color: color_or(theme.primary, theme.foreground),
                bold: false,
                italic: false,
            },
            theme.foreground,
        ),
    ]
}

/// The rows of a line of the transcript at a width: the line as it is for
/// no width; else the line wrapped, a user's line between two dividers.
pub open spec fn reflowed(
    theme: InlineTheme,
    labels: MessageLabelsV,
    line: MessageLineV,
    width: u16,
) -> Seq<Seq<StyledSpanV>> {
    let spans = message_spans(theme, labels, line);
    if width == 0 {
        seq![spans]
    } else if line.kind == InlineMessageKind::User {
        seq![divider_row(theme, width as usize)] + wrapped(spans, width as usize) + seq![
            divider_row(theme, width as usize),
        ]
    } else {
        wrapped(spans, width as usize)
    }
}

/// The rows of the lines from index `i` on, added to `acc`.
pub open spec fn flattened_from(
    theme: InlineTheme,
    labels: MessageLabelsV,
    lines: Seq<MessageLineV>,
    i: int,
    width: u16,
    acc: Seq<Seq<StyledSpanV>>,
) -> Seq<Seq<StyledSpanV>>
    decreases lines.len() - i,
{
    if 0 <= i < lines.len() {
        flattened_from(theme, labels, lines, i + 1, width, acc + reflowed(
            theme,
            labels,
            lines[i],
            width,
        ))
    } else {
        acc
    }
}

/// The rows of a transcript at a width: those of its lines, one after
/// another; one empty row for an empty transcript.
pub open spec fn flattened(
    theme: InlineTheme,
    labels: MessageLabelsV,
    lines: Seq<MessageLineV>,
    width: u16,
) -> Seq<Seq<StyledSpanV>> {
    let rows = flattened_from(theme, labels, lines, 0, width, Seq::empty());
    if rows.len() == 0 {
        seq![Seq::empty()]
    } else {
        rows
    }
}

/// Every line has at least one row.
pub proof fn lemma_reflowed_is_not_empty(
    theme: InlineTheme,
    labels: MessageLabelsV,
    line: MessageLineV,
    width: u16,
)
    ensures
        reflowed(theme, labels, line, width).len() >= 1,
{
}

/// The rows of a transcript are the rows of its lines, each of which
/// depends on that line alone: what the lines up to `i` give is the same
/// whatever stands after them.
pub proof fn lemma_flattened_prefix(
    theme: InlineTheme,
    labels: MessageLabelsV,
    lines: Seq<MessageLineV>,
    other: Seq<MessageLineV>,
    i: int,
    n: int,
    width: u16,
    acc: Seq<Seq<StyledSpanV>>,
)
    requires
        0 <= i <= n <= lines.len(),
        n <= other.len(),
        forall|k: int| i <= k < n ==> lines[k] == other[k],
    ensures
        flattened_from(theme, labels, lines.subrange(0, n), i, width, acc) == flattened_from(
            theme,
            labels,
            other.subrange(0, n),
            i,
            width,
            acc,
        ),
    decreases n - i,
{
    if i < n {
        assert(lines.subrange(0, n)[i] == other.subrange(0, n)[i]);
        lemma_flattened_prefix(theme, labels, lines, other, i + 1, n, width, acc + reflowed(
            theme,
            labels,
            lines[i],
            width,
        ));
    }
}

/// Adding a line at the end adds its rows at the end and leaves every row
/// before them as it was.
pub proof fn lemma_flattened_push(
    theme: InlineTheme,
    labels: MessageLabelsV,
    lines: Seq<MessageLineV>,
    line: MessageLineV,
    i: int,
    width: u16,
    acc: Seq<Seq<StyledSpanV>>,
)
    requires
        0 <= i <= lines.len(),
    ensures
        flattened_from(theme, labels, lines.push(line), i, width, acc) == flattened_from(
            theme,
            labels,
            lines,
            i,
            width,
            acc,
        ) + reflowed(theme, labels, line, width),
    decreases lines.len() - i,
{
    let longer = lines.push(line);
    if i < lines.len() {
        assert(longer[i] == lines[i]);
        lemma_flattened_push(theme, labels, lines, line, i + 1, width, acc + reflowed(
            theme,
            labels,
            lines[i],
            width,
        ));
    } else {
        assert(longer[i] == line);
        assert(flattened_from(theme, labels, longer, i + 1, width, acc + reflowed(
            theme,
            labels,
            line,
            width,
        )) == acc + reflowed(theme, labels, line, width));
    }
}

/// The fallback colour of the text of a kind of line.
pub fn text_fallback(theme: &InlineTheme, kind: InlineMessageKind) -> (r: Option<InlineColor>)
    ensures
        r == text_fallback_of(*theme, kind),
{
    match kind {
        InlineMessageKind::User => first_color(theme.secondary, theme.foreground),
        InlineMessageKind::Info => theme.foreground,
        _ => first_color(theme.primary, theme.foreground),
    }
}

/// The text shown before a line of a kind.
pub fn prefix_text(labels: &MessageLabels, kind: InlineMessageKind) -> (r: Option<String>)
    ensures
        opt_text(r) == prefix_text_of(labels@, kind),
{
    match kind {
        InlineMessageKind::User => Some(
            match &labels.user {
                Some(l) => l.clone(),
                None => USER_PREFIX.to_owned(),
            },
        ),
        InlineMessageKind::Policy => duplicate_opt_text(&labels.agent),
        _ => None,
    }
}

/// The style of the prefix of a line.
pub fn prefix_style(theme: &InlineTheme, line: &MessageLine) -> (r: InlineTextStyle)
    ensures
        r == prefix_style_of(*theme, line@),
{
    let ghost segments = line@.segments;
    let mut found: Option<InlineColor> = None;
    let mut i: usize = 0;
    while i < line.segments.len()
        invariant_except_break
            found is None,
            segment_color_from(segments, i as int) == segment_color_from(segments, 0),
        invariant
            i <= line.segments.len(),
            segments == segment_views(line.segments@),
        ensures
            found == segment_color_from(segments, 0),
        decreases line.segments.len() - i,
    {
        if line.segments[i].style.color.is_some() {
            found = line.segments[i].style.color;
            break ;
        }
        i += 1;
    }
    let fallback = first_color(text_fallback(theme, line.kind), theme.foreground);
    InlineTextStyle { color: first_color(found, fallback), bold: false, italic: false }
}

fn make_inline_span(text: String, style: &InlineTextStyle, fallback: Option<InlineColor>) -> (r:
    StyledSpan)
    ensures
        r@ == inline_span(text@, *style, fallback),
{
    StyledSpan { text, style: SpanStyle::from_inline(style, fallback) }
}

fn combined_text(segments: &Vec<InlineSegment>) -> (r: String)
    ensures
        r@ == segments_text_from(segment_views(segments@), 0, Seq::empty()),
{
    let ghost views = segment_views(segments@);
    let mut out = String::new();
    let mut i: usize = 0;
    while i < segments.len()
        invariant
            i <= segments.len(),
            views == segment_views(segments@),
            segments_text_from(views, i as int, out@) == segments_text_from(
                views,
                0,
                Seq::empty(),
            ),
        decreases segments.len() - i,
    {
        out.append(segments[i].text.as_str());
        i += 1;
    }
    out
}

fn any_italic(segments: &Vec<InlineSegment>) -> (r: bool)
    ensures
        r == any_italic_within(segment_views(segments@), segments@.len() as int),
{
    let ghost views = segment_views(segments@);
    let mut i: usize = 0;
    while i < segments.len()
        invariant
            i <= segments.len(),
            views == segment_views(segments@),
            !any_italic_within(views, i as int),
        decreases segments.len() - i,
    {
        if segments[i].style.italic {
            assert(views[i as int].style.italic);
            return true;
        }
        i += 1;
    }
    false
}

/// The spans of a tool's detail line.
pub fn render_tool_detail_line(theme: &InlineTheme, text: &str) -> (r: Vec<StyledSpan>)
    ensures
        span_views(r@) == tool_detail_spans(*theme, text@),
{
    let border_inline = InlineTextStyle {
        color: first_color(theme.secondary, theme.foreground),
        bold: false,
        italic: false,
    };
    let border_style = SpanStyle::from_inline(&border_inline, theme.foreground).with_dim();
    let border = StyledSpan {
        text: crate::text::concat(TOOL_BORDER_SYMBOL, " "),
        style: border_style,
    };
    let body_style = InlineTextStyle {
        color: first_color(theme.tool_body, theme.foreground),
        bold: false,
        italic: true,
    };
    let chars = chars_of(text);
    let start = trim_start_index(chars.as_slice());
    let body_text = slice_chars(chars.as_slice(), start, chars.len());
    let body = make_inline_span(string_of(body_text.as_slice()), &body_style, theme.foreground);
    let mut spans: Vec<StyledSpan> = Vec::new();
    spans.push(border);
    spans.push(body);
    assert(span_views(spans@) =~= tool_detail_spans(*theme, text@));
    spans
}

/// The spans of a tool's header line.
pub fn render_tool_header_line(theme: &InlineTheme, text: &str) -> (r: Vec<StyledSpan>)
    ensures
        span_views(r@) == tool_header_spans(*theme, text@),
{
    let chars = chars_of(text);
    let indent_end = trim_start_index(chars.as_slice());
    let mut name_end: usize = indent_end;
    while name_end < chars.len() && !chars[name_end].is_whitespace()
        invariant
            indent_end <= name_end <= chars.len(),
            chars@ == text@,
            first_ws(text@, name_end as int) == first_ws(text@, indent_end as int),
        decreases chars.len() - name_end,
    {
        name_end += 1;
    }
    let mut spans: Vec<StyledSpan> = Vec::new();
    assert(span_views(spans@) =~= Seq::empty());
    if indent_end > 0 {
        let indent_style = InlineTextStyle {
            color: first_color(theme.tool_body, theme.foreground),
            bold: false,
            italic: false,
        };
        let indent = slice_chars(chars.as_slice(), 0, indent_end);
        let span = make_inline_span(string_of(indent.as_slice()), &indent_style, theme.foreground);
        spans.push(span);
        assert(span_views(spans@) =~= seq![span@]);
    }
    if name_end > indent_end {
        let name_style = InlineTextStyle {
            color: first_color(theme.tool_accent, first_color(theme.primary, theme.foreground)),
            bold: true,
            italic: false,
        };
        let ghost before = span_views(spans@);
        let name = slice_chars(chars.as_slice(), indent_end, name_end);
        let span = make_inline_span(string_of(name.as_slice()), &name_style, theme.foreground);
        spans.push(span);
        assert(span_views(spans@) =~= before.push(span@));
    }
    if name_end < chars.len() && indent_end < chars.len() {
        let body_style = InlineTextStyle {
            color: first_color(theme.tool_body, theme.foreground),
            bold: false,
            italic: true,
        };
        let ghost before = span_views(spans@);
        let tail = slice_chars(chars.as_slice(), name_end, chars.len());
        let span = make_inline_span(string_of(tail.as_slice()), &body_style, theme.foreground);
        spans.push(span);
        assert(span_views(spans@) =~= before.push(span@));
    }
    spans
}

/// The spans of the segments of a tool's line.
pub fn render_tool_segments(theme: &InlineTheme, line: &MessageLine) -> (r: Vec<StyledSpan>)
    ensures
        span_views(r@) == tool_spans(*theme, line@),
{
    let combined = combined_text(&line.segments);
    if combined.as_str().is_empty() {
        let spans: Vec<StyledSpan> = Vec::new();
        assert(span_views(spans@) =~= Seq::empty());
        return spans;
    }
    if any_italic(&line.segments) {
        return render_tool_detail_line(theme, combined.as_str());
    }
    render_tool_header_line(theme, combined.as_str())
}

fn render_head_spans(theme: &InlineTheme, labels: &MessageLabels, line: &MessageLine) -> (r: Vec<
    StyledSpan,
>)
    ensures
        span_views(r@) == head_spans(*theme, labels@, line@),
{
    let mut spans: Vec<StyledSpan> = Vec::new();
    assert(span_views(spans@) =~= Seq::empty());
    if line.kind == InlineMessageKind::Agent {
        let style = prefix_style(theme, line);
        if !INLINE_AGENT_QUOTE_PREFIX.is_empty() {
            let span = make_inline_span(
                INLINE_AGENT_QUOTE_PREFIX.to_owned(),
                &style,
                theme.foreground,
            );
            spans.push(span);
            assert(span_views(spans@) =~= seq![span@]);
        }
        if let Some(label) = &labels.agent {
            if !label.as_str().is_empty() {
                let ghost before = span_views(spans@);
                let span = make_inline_span(label.clone(), &style, theme.foreground);
                spans.push(span);
                assert(span_views(spans@) =~= before.push(span@));
            }
        }
        let ghost before = span_views(spans@);
        let padding = StyledSpan::raw(INLINE_AGENT_MESSAGE_LEFT_PADDING.to_owned());
        spans.push(padding);
        assert(span_views(spans@) =~= before.push(padding@));
    } else if let Some(prefix) = prefix_text(labels, line.kind) {
        let style = prefix_style(theme, line);
        let span = make_inline_span(prefix, &style, theme.foreground);
        spans.push(span);
        assert(span_views(spans@) =~= seq![span@]);
    }
    spans
}

/// The spans of a line of the transcript.
pub fn render_message_spans(theme: &InlineTheme, labels: &MessageLabels, line: &MessageLine) -> (r:
    Vec<StyledSpan>)
    ensures
        span_views(r@) == message_spans(*theme, labels@, line@),
{
    let mut spans = render_head_spans(theme, labels, line);
    let ghost head = span_views(spans@);
    if line.segments.len() == 0 {
        if spans.len() == 0 {
            let blank = StyledSpan::raw(String::new());
            spans.push(blank);
            assert(span_views(spans@) =~= seq![blank@]);
        }
        return spans;
    }
    if line.kind == InlineMessageKind::Tool {
        let mut tool = render_tool_segments(theme, line);
        if tool.len() == 0 {
            let blank = StyledSpan::raw(String::new());
            spans.push(blank);
            assert(span_views(spans@) =~= head.push(blank@));
        } else {
            let ghost added = span_views(tool@);
            spans.append(&mut tool);
            assert(span_views(spans@) =~= head + added);
        }
        return spans;
    }
    let fallback = first_color(text_fallback(theme, line.kind), theme.foreground);
    let ghost segments = line@.segments;
    let mut i: usize = 0;
    while i < line.segments.len()
        invariant
            i <= line.segments.len(),
            segments == segment_views(line.segments@),
            segment_spans_from(segments, i as int, fallback, span_views(spans@))
                == segment_spans_from(segments, 0, fallback, head),
        decreases line.segments.len() - i,
    {
        let ghost before = span_views(spans@);
        let span = make_inline_span(
            line.segments[i].text.clone(),
            &line.segments[i].style,
            fallback,
        );
        spans.push(span);
        assert(span_views(spans@) =~= before.push(span@));
        i += 1;
    }
    spans
}

/// The divider above and below a user's line.
pub fn message_divider_line(theme: &InlineTheme, width: usize) -> (r: Vec<StyledSpan>)
    ensures
        span_views(r@) == divider_row(*theme, width),
{
    let mut content = String::new();
    let mut n: usize = width;
    while n > 0
        invariant
            repeated_from(INLINE_USER_MESSAGE_DIVIDER_SYMBOL@, n as int, content@) == repeated_from(
                INLINE_USER_MESSAGE_DIVIDER_SYMBOL@,
                width as int,
                Seq::empty(),
            ),
        decreases n,
    {
        content.append(INLINE_USER_MESSAGE_DIVIDER_SYMBOL);
        n -= 1;
    }
    let style = InlineTextStyle {
        color: first_color(theme.primary, theme.foreground),
        bold: false,
        italic: false,
    };
    let span = make_inline_span(content, &style, theme.foreground);
    let mut row: Vec<StyledSpan> = Vec::new();
    row.push(span);
    assert(span_views(row@) =~= seq![span@]);
    row
}

/// The rows of a line of the transcript at a width.
pub fn reflow_message_lines(
    theme: &InlineTheme,
    labels: &MessageLabels,
    message: &MessageLine,
    width: u16,
) -> (r: Vec<Vec<StyledSpan>>)
    ensures
        row_views(r@) == reflowed(*theme, labels@, message@, width),
        r@.len() >= 1,
{
    let spans = render_message_spans(theme, labels, message);
    if width == 0 {
        let mut rows: Vec<Vec<StyledSpan>> = Vec::new();
        let ghost row = span_views(spans@);
        rows.push(spans);
        assert(row_views(rows@) =~= seq![row]);
        return rows;
    }
    let max_width = width as usize;
    let mut lines = wrap_line(&spans, max_width);
    if message.kind == InlineMessageKind::User {
        let ghost inner = row_views(lines@);
        let top = message_divider_line(theme, max_width);
        let bottom = message_divider_line(theme, max_width);
        lines.insert(0, top);
        lines.push(bottom);
        assert(row_views(lines@) =~= seq![divider_row(*theme, max_width)] + inner + seq![
            divider_row(*theme, max_width),
        ]);
    }
    lines
}

/// The wrapped rows of one line, with the revision they were made from.
#[derive(Debug)]
pub struct CachedMessage {
    pub revision: u64,
    pub lines: Vec<Vec<StyledSpan>>,
}

/// The wrapped rows of the transcript at one width: those of each line,
/// and all of them in order.
#[derive(Debug)]
pub struct TranscriptReflowCache {
    pub width: u16,
    pub flattened: Vec<Vec<StyledSpan>>,
    pub messages: Vec<CachedMessage>,
}

/// Model of a [`Session`]: what it holds, without what it only keeps to
/// save work.
pub struct SessionV {
    pub lines: Seq<MessageLineV>,
    pub theme: InlineTheme,
    pub header_context: InlineHeaderContextV,
    pub header_rows: u16,
    pub labels: MessageLabelsV,
    pub prompt_prefix: Seq<char>,
    pub prompt_style: InlineTextStyle,
    pub placeholder: Option<Seq<char>>,
    pub placeholder_style: Option<InlineTextStyle>,
    pub input: Seq<char>,
    pub cursor: int,
    pub slash_suggestions: Seq<usize>,
    pub slash_selected: Option<usize>,
    pub slash_offset: usize,
    pub slash_visible_rows: usize,
    pub input_enabled: bool,
    pub cursor_visible: bool,
    pub needs_redraw: bool,
    pub should_exit: bool,
    pub view_rows: u16,
    pub scroll_offset: usize,
    pub transcript_rows: u16,
    pub transcript_width: u16,
    pub modal: Option<ModalStateV>,
    pub show_timeline_pane: bool,
    pub line_revision_counter: u64,
}

/// The inline session. The cursor counts the characters of the input
/// before it; the scroll offset counts wrapped rows above the bottom of
/// the transcript.
#[derive(Debug)]
pub struct Session {
    lines: Vec<MessageLine>,
    theme: InlineTheme,
    header_context: InlineHeaderContext,
    header_rows: u16,
    labels: MessageLabels,
    prompt_prefix: String,
    prompt_style: InlineTextStyle,
    placeholder: Option<String>,
    placeholder_style: Option<InlineTextStyle>,
    input: Vec<char>,
    cursor: usize,
    slash_suggestions: Vec<usize>,
    slash_selected: Option<usize>,
    slash_offset: usize,
    slash_visible_rows: usize,
    input_enabled: bool,
    cursor_visible: bool,
    needs_redraw: bool,
    should_exit: bool,
    view_rows: u16,
    scroll_offset: usize,
    transcript_rows: u16,
    transcript_width: u16,
    cached_max_scroll_offset: usize,
    scroll_metrics_dirty: bool,
    transcript_cache: Option<TranscriptReflowCache>,
    modal: Option<ModalState>,
    show_timeline_pane: bool,
    line_revision_counter: u64,
}

/// The model of an optional modal.
pub open spec fn opt_modal_view(modal: Option<ModalState>) -> Option<ModalStateV> {
    match modal {
        Some(m) => Some(m@),
        None => None,
    }
}

impl View for Session {
    type V = SessionV;

    closed spec fn view(&self) -> SessionV {
        SessionV {
            lines: line_views(self.lines@),
            theme: self.theme,
            header_context: self.header_context@,
            header_rows: self.header_rows,
            labels: self.labels@,
            prompt_prefix: self.prompt_prefix@,
            prompt_style: self.prompt_style,
            placeholder: opt_text(self.placeholder),
            placeholder_style: self.placeholder_style,
            input: self.input@,
            cursor: self.cursor as int,
            slash_suggestions: self.slash_suggestions@,
            slash_selected: self.slash_selected,
            slash_offset: self.slash_offset,
            slash_visible_rows: self.slash_visible_rows,
            input_enabled: self.input_enabled,
            cursor_visible: self.cursor_visible,
            needs_redraw: self.needs_redraw,
            should_exit: self.should_exit,
            view_rows: self.view_rows,
            scroll_offset: self.scroll_offset,
            transcript_rows: self.transcript_rows,
            transcript_width: self.transcript_width,
            modal: opt_modal_view(self.modal),
            show_timeline_pane: self.show_timeline_pane,
            line_revision_counter: self.line_revision_counter,
        }
    }
}

impl SessionV {
    /// The rows of the transcript at a width.
    pub open spec fn rows_at(self, width: u16) -> Seq<Seq<StyledSpanV>> {
        flattened(self.theme, self.labels, self.lines, width)
    }

    /// The rows the transcript shows at once.
    pub open spec fn viewport_height(self) -> int {
        if self.transcript_rows < 1 {
            1
        } else {
            self.transcript_rows as int
        }
    }

    /// The largest scroll offset: the rows of the transcript that do not
    /// fit, counted in lines as long as no width is known.
    pub open spec fn max_scroll_offset(self) -> int {
        let total = if self.transcript_width == 0 {
            self.lines.len() as int
        } else {
            self.rows_at(self.transcript_width).len() as int
        };
        if total > self.viewport_height() {
            total - self.viewport_height()
        } else {
            0
        }
    }

    /// The index of the first row in view.
    pub open spec fn top_row(self) -> int {
        if self.max_scroll_offset() > self.scroll_offset {
            self.max_scroll_offset() - self.scroll_offset
        } else {
            0
        }
    }

    /// The revision after the next change.
    pub open spec fn next_revision(self) -> u64 {
        if self.line_revision_counter == u64::MAX {
            0
        } else {
            (self.line_revision_counter + 1) as u64
        }
    }

    /// The session with the scroll offset held to the largest one.
    pub open spec fn with_scroll_bounds(self) -> SessionV {
        if self.scroll_offset > self.max_scroll_offset() {
            SessionV { scroll_offset: self.max_scroll_offset() as usize, ..self }
        } else {
            self
        }
    }

    /// The session after its transcript changed, `previous` having been
    /// the largest scroll offset before: a view that was scrolled up keeps
    /// its window by moving as far as the transcript grew, and a view at
    /// the bottom stays at the bottom.
    pub open spec fn with_scroll_adjusted(self, previous: int) -> SessionV {
        let now = self.max_scroll_offset();
        let moved = if self.scroll_offset > 0 && now > previous {
            SessionV {
                scroll_offset: if self.scroll_offset + (now - previous) > now {
                    now as usize
                } else {
                    (self.scroll_offset + (now - previous)) as usize
                },
                ..self
            }
        } else {
            self
        };
        moved.with_scroll_bounds()
    }
}

/// The rows of each cached line are those of the line at the width of the
/// cache, made from the revision the line has.
pub open spec fn cache_matches(
    cache: TranscriptReflowCache,
    theme: InlineTheme,
    labels: MessageLabelsV,
    lines: Seq<MessageLineV>,
) -> bool {
    &&& cache.messages@.len() == lines.len()
    &&& forall|i: int|
        0 <= i < lines.len() ==> (#[trigger] cache.messages@[i]).revision == lines[i].revision
            && row_views(cache.messages@[i].lines@) == reflowed(
            theme,
            labels,
            lines[i],
            cache.width,
        )
    &&& row_views(cache.flattened@) == flattened(theme, labels, lines, cache.width)
}

impl Session {
    /// Whether the session is consistent: the cursor is within the input,
    /// every suggestion is a command, what is cached fits what is held.
    pub closed spec fn wf(&self) -> bool {
        &&& self.cursor <= self.input@.len()
        &&& forall|k: int|
            0 <= k < self.slash_suggestions@.len() ==> self.slash_suggestions@[k]
                < crate::ui::slash::SLASH_COMMAND_COUNT
        &&& match self.transcript_cache {
            Some(cache) => cache_matches(cache, self.theme, self.labels@, line_views(self.lines@)),
            None => true,
        }
        &&& (!self.scroll_metrics_dirty ==> self.cached_max_scroll_offset
            == self@.max_scroll_offset())
    }

    /// A consistent session keeps its cursor within the input.
    pub proof fn lemma_cursor_in_input(&self)
        requires
            self.wf(),
        ensures
            0 <= self@.cursor <= self@.input.len(),
    {
    }

    fn next_revision(&mut self) -> (r: u64)
        requires
            old(self).wf(),
        ensures
            r == old(self)@.next_revision(),
            final(self)@ == (SessionV { line_revision_counter: r, ..old(self)@ }),
            final(self).wf(),
            final(self).transcript_cache == old(self).transcript_cache,
            final(self).scroll_metrics_dirty == old(self).scroll_metrics_dirty,
            final(self).cached_max_scroll_offset == old(self).cached_max_scroll_offset,
    {
        self.line_revision_counter = if self.line_revision_counter == u64::MAX {
            0
        } else {
            self.line_revision_counter + 1
        };
        self.line_revision_counter
    }

    /// Whether the owner asked the session to end.
    pub fn should_exit(&self) -> (r: bool)
        ensures
            r == self@.should_exit,
    {
        self.should_exit
    }

    pub fn request_exit(&mut self)
        requires
            old(self).wf(),
        ensures
            final(self)@ == (SessionV { should_exit: true, ..old(self)@ }),
            final(self).wf(),
    {
        self.should_exit = true;
    }

    /// Whether a frame is owed; the debt is paid by asking.
    pub fn take_redraw(&mut self) -> (r: bool)
        requires
            old(self).wf(),
        ensures
            r == old(self)@.needs_redraw,
            final(self)@ == (SessionV { needs_redraw: false, ..old(self)@ }),
            final(self).wf(),
    {
        if self.needs_redraw {
            self.needs_redraw = false;
            true
        } else {
            false
        }
    }

    pub fn mark_dirty(&mut self)
        requires
            old(self).wf(),
        ensures
            final(self)@ == (SessionV { needs_redraw: true, ..old(self)@ }),
            final(self).wf(),
    {
        self.needs_redraw = true;
    }

    /// The number of characters of the input before the cursor.
    pub fn cursor(&self) -> (r: usize)
        ensures
            r == self@.cursor,
    {
        self.cursor
    }

    /// The input.
    pub fn input(&self) -> (r: String)
        ensures
            r@ == self@.input,
    {
        string_of(self.input.as_slice())
    }

    /// The scroll offset, in wrapped rows above the bottom.
    pub fn scroll_offset(&self) -> (r: usize)
        ensures
            r == self@.scroll_offset,
    {
        self.scroll_offset
    }

    /// The number of lines of the transcript.
    pub fn line_count(&self) -> (r: usize)
        ensures
            r == self@.lines.len(),
    {
        self.lines.len()
    }

    /// The width the transcript was last drawn at.
    pub fn transcript_width(&self) -> (r: u16)
        ensures
            r == self@.transcript_width,
    {
        self.transcript_width
    }

    /// A copy of the line at `index`.
    pub fn line(&self, index: usize) -> (r: MessageLine)
        requires
            index < self@.lines.len(),
        ensures
            r@ == self@.lines[index as int],
    {
        MessageLine {
            kind: self.lines[index].kind,
            segments: duplicate_segments(&self.lines[index].segments),
            revision: self.lines[index].revision,
        }
    }

    /// Whether a modal is open.
    pub fn has_modal(&self) -> (r: bool)
        ensures
            r == self@.modal is Some,
    {
        self.modal.is_some()
    }

    /// Whether the input takes keys.
    pub fn input_enabled(&self) -> (r: bool)
        ensures
            r == self@.input_enabled,
    {
        self.input_enabled
    }

    /// The rows the transcript shows at once.
    pub fn viewport_height(&self) -> (r: usize)
        ensures
            r == self@.viewport_height(),
    {
        if self.transcript_rows < 1 {
            1
        } else {
            self.transcript_rows as usize
        }
    }

    fn invalidate_scroll_metrics(&mut self)
        ensures
            final(self)@ == old(self)@,
            final(self).transcript_cache is None,
            final(self).scroll_metrics_dirty,
            final(self).slash_suggestions == old(self).slash_suggestions,
            final(self).cursor == old(self).cursor,
            final(self).input == old(self).input,
    {
        self.scroll_metrics_dirty = true;
        self.transcript_cache = None;
    }

    /// Makes sure that the rows of the transcript at `width` are at hand.
    /// Rows of lines whose revision has not changed are taken over; the
    /// others are wrapped anew.
    fn refresh_cache(&mut self, width: u16)
        requires
            old(self).wf(),
        ensures
            final(self)@ == old(self)@,
            final(self).wf(),
            final(self).transcript_cache is Some,
            final(self).transcript_cache->0.width == width,
            row_views(final(self).transcript_cache->0.flattened@) == old(self)@.rows_at(width),
            final(self).scroll_metrics_dirty == old(self).scroll_metrics_dirty,
            final(self).cached_max_scroll_offset == old(self).cached_max_scroll_offset,
    {
        let ghost lines = line_views(self.lines@);
        let ghost labels = self.labels@;
        let theme = self.theme;
        let previous = self.transcript_cache.take();
        let width_mismatch = match &previous {
            Some(cache) => cache.width != width,
            None => true,
        };
        let mut messages: Vec<CachedMessage> = Vec::new();
        let mut flat: Vec<Vec<StyledSpan>> = Vec::new();
        assert(row_views(flat@) =~= Seq::empty());
        let mut i: usize = 0;
        while i < self.lines.len()
            invariant
                i <= self.lines.len(),
                lines == line_views(self.lines@),
                labels == self.labels@,
                theme == self.theme,
                width_mismatch == match previous {
                    Some(cache) => cache.width != width,
                    None => true,
                },
                match previous {
                    Some(cache) => cache_matches(cache, theme, labels, lines),
                    None => true,
                },
                messages@.len() == i,
                forall|k: int|
                    0 <= k < i ==> (#[trigger] messages@[k]).revision == lines[k].revision
                        && row_views(messages@[k].lines@) == reflowed(
                        theme,
                        labels,
                        lines[k],
                        width,
                    ),
                flattened_from(theme, labels, lines, i as int, width, row_views(flat@))
                    == flattened_from(theme, labels, lines, 0, width, Seq::empty()),
            decreases self.lines.len() - i,
        {
            let line = &self.lines[i];
            let reuse = match &previous {
                Some(cache) => !width_mismatch && i < cache.messages.len() && cache.messages[i].revision
                    == line.revision,
                None => false,
            };
            let rows = if reuse {
                match &previous {
                    Some(cache) => crate::ui::tui::style::duplicate_rows(&cache.messages[i].lines),
                    None => reflow_message_lines(&theme, &self.labels, line, width),
                }
            } else {
                reflow_message_lines(&theme, &self.labels, line, width)
            };
            assert(row_views(rows@) == reflowed(theme, labels, lines[i as int], width));
            let mut copy = crate::ui::tui::style::duplicate_rows(&rows);
            let ghost before = row_views(flat@);
            let ghost added = row_views(copy@);
            flat.append(&mut copy);
            assert(row_views(flat@) =~= before + added);
            messages.push(CachedMessage { revision: line.revision, lines: rows });
            i += 1;
        }
        if flat.len() == 0 {
            let blank: Vec<StyledSpan> = Vec::new();
            assert(span_views(blank@) =~= Seq::empty());
            flat.push(blank);
            assert(row_views(flat@) =~= seq![Seq::<StyledSpanV>::empty()]);
        }
        self.transcript_cache = Some(TranscriptReflowCache { width, flattened: flat, messages });
    }

    /// The number of rows of the transcript at `width`.
    fn row_count(&mut self, width: u16) -> (r: usize)
        requires
            old(self).wf(),
        ensures
            final(self)@ == old(self)@,
            final(self).wf(),
            r == old(self)@.rows_at(width).len(),
            r >= 1,
            final(self).scroll_metrics_dirty == old(self).scroll_metrics_dirty,
            final(self).cached_max_scroll_offset == old(self).cached_max_scroll_offset,
            final(self).transcript_cache is Some,
            row_views(final(self).transcript_cache->0.flattened@) == old(self)@.rows_at(width),
    {
        self.refresh_cache(width);
        match &self.transcript_cache {
            Some(cache) => {
                assert(row_views(cache.flattened@).len() == cache.flattened@.len());
                cache.flattened.len()
            },
            None => 1,
        }
    }

    fn ensure_scroll_metrics(&mut self)
        requires
            old(self).wf(),
        ensures
            final(self)@ == old(self)@,
            final(self).wf(),
            !final(self).scroll_metrics_dirty,
            final(self).cached_max_scroll_offset == old(self)@.max_scroll_offset(),
    {
        if !self.scroll_metrics_dirty {
            return ;
        }
        let viewport_rows = self.viewport_height();
        let total = if self.transcript_width == 0 {
            self.lines.len()
        } else {
            self.row_count(self.transcript_width)
        };
        self.cached_max_scroll_offset = if total > viewport_rows {
            total - viewport_rows
        } else {
            0
        };
        self.scroll_metrics_dirty = false;
    }

    /// The largest scroll offset.
    pub fn current_max_scroll_offset(&mut self) -> (r: usize)
        requires
            old(self).wf(),
        ensures
            final(self)@ == old(self)@,
            final(self).wf(),
            r == old(self)@.max_scroll_offset(),
    {
        self.ensure_scroll_metrics();
        self.cached_max_scroll_offset
    }

    fn enforce_scroll_bounds(&mut self)
        requires
            old(self).wf(),
        ensures
            final(self)@ == old(self)@.with_scroll_bounds(),
            final(self).wf(),
    {
        let max_offset = self.current_max_scroll_offset();
        if self.scroll_offset > max_offset {
            self.scroll_offset = max_offset;
        }
    }

    fn adjust_scroll_after_change(&mut self, previous_max_offset: usize)
        requires
            old(self).wf(),
        ensures
            final(self)@ == old(self)@.with_scroll_adjusted(previous_max_offset as int),
            final(self).wf(),
    {
        let new_max_offset = self.current_max_scroll_offset();
        if self.scroll_offset > 0 && new_max_offset > previous_max_offset {
            let delta = new_max_offset - previous_max_offset;
            self.scroll_offset = if self.scroll_offset > new_max_offset - delta {
                new_max_offset
            } else {
                self.scroll_offset + delta
            };
        }
        self.enforce_scroll_bounds();
    }

    /// Scrolls one row up, as far as the top.
    pub fn scroll_line_up(&mut self)
        requires
            old(self).wf(),
        ensures
            final(self).wf(),
            final(self)@ == (SessionV {
                scroll_offset: if old(self)@.scroll_offset + 1 > old(self)@.max_scroll_offset() {
                    old(self)@.max_scroll_offset() as usize
                } else {
                    (old(self)@.scroll_offset + 1) as usize
                },
                ..old(self)@
            }),
    {
        let max_offset = self.current_max_scroll_offset();
        self.scroll_offset = if self.scroll_offset >= max_offset {
            max_offset
        } else {
            self.scroll_offset + 1
        };
    }

    /// Scrolls one row down, as far as the bottom.
    pub fn scroll_line_down(&mut self)
        requires
            old(self).wf(),
        ensures
            final(self).wf(),
            final(self)@ == (SessionV {
                scroll_offset: if old(self)@.scroll_offset > 0 {
                    (old(self)@.scroll_offset - 1) as usize
                } else {
                    0
                },
                ..old(self)@
            }),
    {
        if self.scroll_offset > 0 {
            self.scroll_offset = self.scroll_offset - 1;
        }
    }

    /// Scrolls one page up, as far as the top.
    pub fn scroll_page_up(&mut self)
        requires
            old(self).wf(),
        ensures
            final(self).wf(),
            final(self)@ == (SessionV {
                scroll_offset: if old(self)@.scroll_offset + old(self)@.viewport_height() > old(
                    self,
                )@.max_scroll_offset() {
                    old(self)@.max_scroll_offset() as usize
                } else {
                    (old(self)@.scroll_offset + old(self)@.viewport_height()) as usize
                },
                ..old(self)@
            }),
    {
        let max_offset = self.current_max_scroll_offset();
        let page = self.viewport_height();
        self.scroll_offset = if page > max_offset || self.scroll_offset > max_offset - page {
            max_offset
        } else {
            self.scroll_offset + page
        };
    }

    /// Scrolls one page down, as far as the bottom.
    pub fn scroll_page_down(&mut self)
        requires
            old(self).wf(),
        ensures
            final(self).wf(),
            final(self)@ == (SessionV {
                scroll_offset: if old(self)@.scroll_offset > old(self)@.viewport_height() {
                    (old(self)@.scroll_offset - old(self)@.viewport_height()) as usize
                } else {
                    0
                },
                ..old(self)@
            }),
    {
        let page = self.viewport_height();
        if self.scroll_offset > page {
            self.scroll_offset = self.scroll_offset - page;
        } else {
            self.scroll_offset = 0;
        }
    }
}

/// `a + b`, held at the largest 16-bit number.
pub open spec fn sat_add16(a: u16, b: int) -> u16 {
    if a + b > u16::MAX {
        u16::MAX
    } else if a + b < 0 {
        0
    } else {
        (a + b) as u16
    }
}

/// `a - b`, held at zero.
pub open spec fn sat_sub16(a: u16, b: int) -> u16 {
    if a - b < 0 {
        0
    } else if a - b > u16::MAX {
        u16::MAX
    } else {
        (a - b) as u16
    }
}

fn add16(a: u16, b: u16) -> (r: u16)
    ensures
        r == sat_add16(a, b as int),
{
    if b > u16::MAX - a {
        u16::MAX
    } else {
        a + b
    }
}

fn sub16(a: u16, b: u16) -> (r: u16)
    ensures
        r == sat_sub16(a, b as int),
{
    if b > a {
        0
    } else {
        a - b
    }
}

impl SessionV {
    /// The rows the slash suggestions take: none without suggestions,
    /// else as many as there are, up to the limit, and two for the frame.
    pub open spec fn slash_suggestion_height(self) -> u16 {
        if self.slash_suggestions.len() == 0 {
            0
        } else if self.slash_suggestions.len() < SLASH_SUGGESTION_LIMIT {
            (self.slash_suggestions.len() + 2) as u16
        } else {
            (SLASH_SUGGESTION_LIMIT + 2) as u16
        }
    }

    /// The rows that header, input and suggestions take.
    pub open spec fn input_reserved_rows(self) -> u16 {
        let header = if self.header_rows < INLINE_HEADER_HEIGHT {
            INLINE_HEADER_HEIGHT
        } else {
            self.header_rows
        };
        sat_add16(sat_add16(header, INLINE_INPUT_HEIGHT as int), self.slash_suggestion_height() as int)
    }

    /// The rows left for the transcript within its frame, at least one.
    pub open spec fn available_transcript_rows(self) -> u16 {
        let left = sat_sub16(self.view_rows, sat_add16(self.input_reserved_rows(), 2) as int);
        if left < 1 {
            1
        } else {
            left
        }
    }

    /// The session with the rows of the transcript worked out anew.
    pub open spec fn with_transcript_rows_recalculated(self) -> SessionV {
        SessionV { transcript_rows: self.available_transcript_rows(), ..self }
    }

    /// The session after the terminal gave it `rows` rows: at least two
    /// count; the transcript gets what header, input and suggestions
    /// leave; the scroll offset is held to the largest one.
    pub open spec fn with_view_rows(self, rows: u16) -> SessionV {
        SessionV {
            view_rows: if rows < 2 {
                2
            } else {
                rows
            },
            ..self
        }.with_transcript_rows_recalculated().with_scroll_bounds()
    }

    /// The session with one more line at the end of its transcript, the
    /// scroll offset left as it is.
    pub open spec fn with_line(self, kind: InlineMessageKind, segments: Seq<InlineSegmentV>)
        -> SessionV {
        SessionV {
            lines: self.lines.push(MessageLineV { kind, segments, revision: self.next_revision() }),
            line_revision_counter: self.next_revision(),
            ..self
        }
    }

    /// The session with one more line at the end: a view that is scrolled
    /// up keeps its window.
    pub open spec fn pushed(self, kind: InlineMessageKind, segments: Seq<InlineSegmentV>)
        -> SessionV {
        self.with_line(kind, segments).with_scroll_adjusted(self.max_scroll_offset())
    }

    /// The session after text in a style joined the transcript: nothing
    /// changes for no text; the last line takes it where it is of the
    /// kind, in its last segment where that has the style, else in a new
    /// segment; otherwise a new line takes it.
    pub open spec fn with_text(self, kind: InlineMessageKind, text: Seq<char>, style: InlineTextStyle)
        -> SessionV {
        if text.len() == 0 {
            self
        } else if self.lines.len() > 0 && self.lines.last().kind == kind {
            let line = self.lines.last();
            let segments = if line.segments.len() > 0 && line.segments.last().style == style {
                line.segments.update(
                    line.segments.len() - 1,
                    InlineSegmentV { text: line.segments.last().text + text, style },
                )
            } else {
                line.segments.push(InlineSegmentV { text, style })
            };
            SessionV {
                lines: self.lines.update(
                    self.lines.len() - 1,
                    MessageLineV { kind, segments, revision: self.next_revision() },
                ),
                line_revision_counter: self.next_revision(),
                ..self
            }
        } else {
            SessionV {
                lines: self.lines.push(
                    MessageLineV {
                        kind,
                        segments: seq![InlineSegmentV { text, style }],
                        revision: self.next_revision(),
                    },
                ),
                line_revision_counter: self.next_revision(),
                ..self
            }
        }
    }

    /// The session after a carriage return: the last line is emptied
    /// where it is of the kind, else a new line begins.
    pub open spec fn with_line_reset(self, kind: InlineMessageKind) -> SessionV {
        if self.lines.len() > 0 && self.lines.last().kind == kind {
            SessionV {
                lines: self.lines.update(
                    self.lines.len() - 1,
                    MessageLineV { kind, segments: Seq::empty(), revision: self.next_revision() },
                ),
                line_revision_counter: self.next_revision(),
                ..self
            }
        } else {
            self.with_line(kind, Seq::empty())
        }
    }

    /// The session after the characters of streamed text from index `i`
    /// on, where the run of plain text under way began at `run`: a line
    /// feed ends the run and begins a line, a carriage return before a
    /// line feed counts with it, a lone carriage return ends the run and
    /// empties the line. The scroll offset is left as it is.
    pub open spec fn inline_scan(
        self,
        text: Seq<char>,
        i: int,
        run: int,
        kind: InlineMessageKind,
        style: InlineTextStyle,
    ) -> SessionV
        decreases text.len() - i,
    {
        if 0 <= i < text.len() && 0 <= run <= i {
            if text[i] == '\n' {
                self.with_text(kind, text.subrange(run, i), style).with_line(
                    kind,
                    Seq::empty(),
                ).inline_scan(text, i + 1, i + 1, kind, style)
            } else if text[i] == '\r' {
                if i + 1 < text.len() && text[i + 1] == '\n' {
                    self.with_text(kind, text.subrange(run, i), style).with_line(
                        kind,
                        Seq::empty(),
                    ).inline_scan(text, i + 2, i + 2, kind, style)
                } else {
                    self.with_text(kind, text.subrange(run, i), style).with_line_reset(
                        kind,
                    ).inline_scan(text, i + 1, i + 1, kind, style)
                }
            } else {
                self.inline_scan(text, i + 1, run, kind, style)
            }
        } else if 0 <= run <= text.len() {
            self.with_text(kind, text.subrange(run, text.len() as int), style)
        } else {
            self
        }
    }

    /// The session after streamed text joined the transcript: the text is
    /// taken in, and a view that is scrolled up then keeps its window by
    /// moving once, as far as the transcript grew in all.
    pub open spec fn appended_inline(self, kind: InlineMessageKind, segment: InlineSegmentV)
        -> SessionV {
        self.inline_scan(segment.text, 0, 0, kind, segment.style).with_scroll_adjusted(
            self.max_scroll_offset(),
        )
    }

    /// The lines after those from index `i` of `added` on joined them,
    /// each with the next revision.
    pub open spec fn with_lines_from(
        self,
        kind: InlineMessageKind,
        added: Seq<Seq<InlineSegmentV>>,
        i: int,
    ) -> SessionV
        decreases added.len() - i,
    {
        if 0 <= i < added.len() {
            SessionV {
                lines: self.lines.push(
                    MessageLineV { kind, segments: added[i], revision: self.next_revision() },
                ),
                line_revision_counter: self.next_revision(),
                ..self
            }.with_lines_from(kind, added, i + 1)
        } else {
            self
        }
    }

    /// The session after its last `count` lines, or all it has, gave way
    /// to new ones.
    pub open spec fn replaced_last(
        self,
        count: usize,
        kind: InlineMessageKind,
        added: Seq<Seq<InlineSegmentV>>,
    ) -> SessionV {
        let keep = if count < self.lines.len() {
            self.lines.len() - count
        } else {
            0
        };
        SessionV { lines: self.lines.subrange(0, keep), ..self }.with_lines_from(
            kind,
            added,
            0,
        ).with_scroll_adjusted(self.max_scroll_offset())
    }
}

/// The models of a sequence of segment lists.
pub open spec fn segment_list_views(items: Seq<Vec<InlineSegment>>) -> Seq<Seq<InlineSegmentV>> {
    Seq::new(items.len(), |i: int| segment_views(items[i]@))
}

impl Session {
    /// The rows the slash suggestions take.
    pub fn slash_suggestion_height(&self) -> (r: u16)
        ensures
            r == self@.slash_suggestion_height(),
    {
        if self.slash_suggestions.len() == 0 {
            0
        } else if self.slash_suggestions.len() < SLASH_SUGGESTION_LIMIT {
            (self.slash_suggestions.len() + 2) as u16
        } else {
            (SLASH_SUGGESTION_LIMIT + 2) as u16
        }
    }

    fn input_reserved_rows(&self) -> (r: u16)
        ensures
            r == self@.input_reserved_rows(),
    {
        let header = if self.header_rows < INLINE_HEADER_HEIGHT {
            INLINE_HEADER_HEIGHT
        } else {
            self.header_rows
        };
        add16(add16(header, INLINE_INPUT_HEIGHT), self.slash_suggestion_height())
    }

    fn apply_transcript_rows(&mut self, rows: u16)
        requires
            old(self).wf(),
        ensures
            final(self).wf(),
            final(self)@ == (SessionV {
                transcript_rows: if rows < 1 {
                    1
                } else {
                    rows
                },
                ..old(self)@
            }),
    {
        let resolved = if rows < 1 {
            1
        } else {
            rows
        };
        if self.transcript_rows != resolved {
            self.transcript_rows = resolved;
            self.invalidate_scroll_metrics();
        }
    }

    fn apply_transcript_width(&mut self, width: u16)
        requires
            old(self).wf(),
        ensures
            final(self).wf(),
            final(self)@ == (SessionV { transcript_width: width, ..old(self)@ }),
    {
        if self.transcript_width != width {
            self.transcript_width = width;
            self.invalidate_scroll_metrics();
        }
    }

    fn recalculate_transcript_rows(&mut self)
        requires
            old(self).wf(),
        ensures
            final(self).wf(),
            final(self)@ == old(self)@.with_transcript_rows_recalculated(),
    {
        let reserved = add16(self.input_reserved_rows(), 2);
        let left = sub16(self.view_rows, reserved);
        let available = if left < 1 {
            1
        } else {
            left
        };
        self.apply_transcript_rows(available);
    }

    /// Takes the number of rows the terminal gives the session.
    pub fn apply_view_rows(&mut self, rows: u16)
        requires
            old(self).wf(),
        ensures
            final(self).wf(),
            final(self)@ == old(self)@.with_view_rows(rows),
    {
        let resolved = if rows < 2 {
            2
        } else {
            rows
        };
        if self.view_rows != resolved {
            self.view_rows = resolved;
            self.invalidate_scroll_metrics();
        }
        self.recalculate_transcript_rows();
        self.enforce_scroll_bounds();
    }

    /// Adds a line at the end of the transcript.
    pub fn push_line(&mut self, kind: InlineMessageKind, segments: Vec<InlineSegment>)
        requires
            old(self).wf(),
        ensures
            final(self).wf(),
            final(self)@ == old(self)@.pushed(kind, segment_views(segments@)),
    {
        let previous_max_offset = self.current_max_scroll_offset();
        let revision = self.next_revision();
        let ghost before = line_views(self.lines@);
        let line = MessageLine { kind, segments, revision };
        self.lines.push(line);
        assert(line_views(self.lines@) =~= before.push(line@));
        self.invalidate_scroll_metrics();
        self.adjust_scroll_after_change(previous_max_offset);
    }

    fn append_text(&mut self, kind: InlineMessageKind, text: &[char], style: InlineTextStyle)
        requires
            old(self).wf(),
        ensures
            final(self).wf(),
            final(self)@ == old(self)@.with_text(kind, text@, style),
    {
        if text.len() == 0 {
            return ;
        }
        let n = self.lines.len();
        let joins = n > 0 && self.lines[n - 1].kind == kind;
        let revision = self.next_revision();
        let ghost before = line_views(self.lines@);
        if joins {
            let mut line = match self.lines.pop() {
                Some(line) => line,
                None => MessageLine { kind, segments: Vec::new(), revision },
            };
            let ghost segments = segment_views(line.segments@);
            let m = line.segments.len();
            if m > 0 && line.segments[m - 1].style == style {
                let mut joined = line.segments[m - 1].text.clone();
                joined.append(string_of(text).as_str());
                line.segments.set(m - 1, InlineSegment { text: joined, style });
                assert(segment_views(line.segments@) =~= segments.update(
                    m - 1,
                    InlineSegmentV { text: segments.last().text + text@, style },
                ));
            } else {
                line.segments.push(InlineSegment { text: string_of(text), style });
                assert(segment_views(line.segments@) =~= segments.push(
                    InlineSegmentV { text: text@, style },
                ));
            }
            line.revision = revision;
            self.lines.push(line);
            assert(line_views(self.lines@) =~= before.update(n - 1, line@));
        } else {
            let mut segments: Vec<InlineSegment> = Vec::new();
            segments.push(InlineSegment { text: string_of(text), style });
            assert(segment_views(segments@) =~= seq![InlineSegmentV { text: text@, style }]);
            let line = MessageLine { kind, segments, revision };
            self.lines.push(line);
            assert(line_views(self.lines@) =~= before.push(line@));
        }
        self.invalidate_scroll_metrics();
    }

    fn start_line(&mut self, kind: InlineMessageKind)
        requires
            old(self).wf(),
        ensures
            final(self).wf(),
            final(self)@ == old(self)@.with_line(kind, Seq::empty()),
    {
        let segments: Vec<InlineSegment> = Vec::new();
        assert(segment_views(segments@) =~= Seq::empty());
        let revision = self.next_revision();
        let ghost before = line_views(self.lines@);
        let line = MessageLine { kind, segments, revision };
        self.lines.push(line);
        assert(line_views(self.lines@) =~= before.push(line@));
        self.invalidate_scroll_metrics();
    }

    fn reset_line(&mut self, kind: InlineMessageKind)
        requires
            old(self).wf(),
        ensures
            final(self).wf(),
            final(self)@ == old(self)@.with_line_reset(kind),
    {
        let n = self.lines.len();
        if n > 0 && self.lines[n - 1].kind == kind {
            let revision = self.next_revision();
            let ghost before = line_views(self.lines@);
            self.lines.pop();
            let segments: Vec<InlineSegment> = Vec::new();
            assert(segment_views(segments@) =~= Seq::empty());
            let line = MessageLine { kind, segments, revision };
            self.lines.push(line);
            assert(line_views(self.lines@) =~= before.update(n - 1, line@));
            self.invalidate_scroll_metrics();
            return ;
        }
        self.start_line(kind);
    }

    /// Adds streamed text to the transcript: it joins the last line of its
    /// kind, a line feed begins a new line, and a lone carriage return
    /// empties the line under way.
    pub fn append_inline(&mut self, kind: InlineMessageKind, segment: InlineSegment)
        requires
            old(self).wf(),
        ensures
            final(self).wf(),
            final(self)@ == old(self)@.appended_inline(kind, segment@),
    {
        let previous_max_offset = self.current_max_scroll_offset();
        let text = chars_of(segment.text.as_str());
        let style = segment.style;
        let ghost goal = self@.inline_scan(text@, 0, 0, kind, style);
        let mut run: usize = 0;
        let mut i: usize = 0;
        while i < text.len()
            invariant
                run <= i <= text.len(),
                self.wf(),
                self@.inline_scan(text@, i as int, run as int, kind, style) == goal,
            decreases text.len() - i,
        {
            let c = text[i];
            if c == '\n' {
                let piece = slice_chars(text.as_slice(), run, i);
                self.append_text(kind, piece.as_slice(), style);
                self.start_line(kind);
                i += 1;
                run = i;
            } else if c == '\r' {
                let piece = slice_chars(text.as_slice(), run, i);
                self.append_text(kind, piece.as_slice(), style);
                if i + 1 < text.len() && text[i + 1] == '\n' {
                    self.start_line(kind);
                    i += 2;
                } else {
                    self.reset_line(kind);
                    i += 1;
                }
                run = i;
            } else {
                i += 1;
            }
        }
        let piece = slice_chars(text.as_slice(), run, text.len());
        self.append_text(kind, piece.as_slice(), style);
        self.invalidate_scroll_metrics();
        self.adjust_scroll_after_change(previous_max_offset);
    }

    /// Replaces the last `count` lines of the transcript.
    pub fn replace_last(
        &mut self,
        count: usize,
        kind: InlineMessageKind,
        lines: Vec<Vec<InlineSegment>>,
    )
        requires
            old(self).wf(),
        ensures
            final(self).wf(),
            final(self)@ == old(self)@.replaced_last(count, kind, segment_list_views(lines@)),
    {
        let previous_max_offset = self.current_max_scroll_offset();
        let keep = if count < self.lines.len() {
            self.lines.len() - count
        } else {
            0
        };
        let ghost before = line_views(self.lines@);
        self.lines.truncate(keep);
        assert(line_views(self.lines@) =~= before.subrange(0, keep as int));
        self.invalidate_scroll_metrics();
        let ghost added = segment_list_views(lines@);
        let ghost goal = self@.with_lines_from(kind, added, 0);
        let mut lines = lines;
        let total = lines.len();
        let mut i: usize = 0;
        while i < total
            invariant
                i <= total,
                total == lines@.len(),
                self.wf(),
                self.transcript_cache is None,
                self.scroll_metrics_dirty,
                forall|k: int| i <= k < total ==> segment_views(#[trigger] lines@[k]@) == added[k],
                added.len() == total,
                self@.with_lines_from(kind, added, i as int) == goal,
            decreases total - i,
        {
            let mut segments: Vec<InlineSegment> = Vec::new();
            std::mem::swap(&mut segments, &mut lines[i]);
            let revision = self.next_revision();
            let ghost held = line_views(self.lines@);
            let line = MessageLine { kind, segments, revision };
            self.lines.push(line);
            assert(line_views(self.lines@) =~= held.push(line@));
            i += 1;
        }
        self.invalidate_scroll_metrics();
        self.adjust_scroll_after_change(previous_max_offset);
    }
}


/// The rows of a run of lines, one after another.
pub open spec fn rows_of_lines(
    theme: InlineTheme,
    labels: MessageLabelsV,
    lines: Seq<MessageLineV>,
    width: u16,
) -> Seq<Seq<StyledSpanV>> {
    flattened_from(theme, labels, lines, 0, width, Seq::empty())
}

/// The rows that lines add come after the rows that were there, and each
/// line adds at least one.
pub proof fn lemma_flattened_from_grows(
    theme: InlineTheme,
    labels: MessageLabelsV,
    lines: Seq<MessageLineV>,
    i: int,
    width: u16,
    acc: Seq<Seq<StyledSpanV>>,
)
    requires
        0 <= i <= lines.len(),
    ensures
        flattened_from(theme, labels, lines, i, width, acc).len() >= acc.len() + (lines.len() - i),
        forall|r: int|
            0 <= r < acc.len() ==> flattened_from(theme, labels, lines, i, width, acc)[r] == acc[r],
    decreases lines.len() - i,
{
    if i < lines.len() {
        let next = acc + reflowed(theme, labels, lines[i], width);
        lemma_flattened_from_grows(theme, labels, lines, i + 1, width, next);
        assert forall|r: int| 0 <= r < acc.len() implies flattened_from(
            theme,
            labels,
            lines,
            i,
            width,
            acc,
        )[r] == acc[r] by {
            assert(next[r] == acc[r]);
        }
    }
}

/// The rows of two runs of lines, one after the other, are the rows of
/// the first followed by the rows of the second.
pub proof fn lemma_rows_of_concat(
    theme: InlineTheme,
    labels: MessageLabelsV,
    a: Seq<MessageLineV>,
    b: Seq<MessageLineV>,
    width: u16,
)
    ensures
        rows_of_lines(theme, labels, a + b, width) == rows_of_lines(theme, labels, a, width)
            + rows_of_lines(theme, labels, b, width),
    decreases b.len(),
{
    if b.len() == 0 {
        assert(a + b =~= a);
        assert(rows_of_lines(theme, labels, b, width) =~= Seq::empty());
        assert(rows_of_lines(theme, labels, a, width) + Seq::<Seq<StyledSpanV>>::empty()
            =~= rows_of_lines(theme, labels, a, width));
    } else {
        let front = b.drop_last();
        let last = b.last();
        lemma_rows_of_concat(theme, labels, a, front, width);
        assert(a + b =~= (a + front).push(last));
        assert(b =~= front.push(last));
        lemma_flattened_push(theme, labels, a + front, last, 0, width, Seq::empty());
        lemma_flattened_push(theme, labels, front, last, 0, width, Seq::empty());
        assert((rows_of_lines(theme, labels, a, width) + rows_of_lines(theme, labels, front, width))
            + reflowed(theme, labels, last, width) =~= rows_of_lines(theme, labels, a, width) + (
        rows_of_lines(theme, labels, front, width) + reflowed(theme, labels, last, width)));
    }
}

/// A change of one line changes the rows of that line and no others: the
/// rows of the transcript are the rows of the lines before it, its own
/// rows, and the rows of the lines after it, and only the middle part
/// follows the change.
pub proof fn lemma_change_touches_one_line(
    theme: InlineTheme,
    labels: MessageLabelsV,
    lines: Seq<MessageLineV>,
    i: int,
    changed: MessageLineV,
    width: u16,
)
    requires
        0 <= i < lines.len(),
    ensures
        rows_of_lines(theme, labels, lines, width) == rows_of_lines(
            theme,
            labels,
            lines.subrange(0, i),
            width,
        ) + reflowed(theme, labels, lines[i], width) + rows_of_lines(
            theme,
            labels,
            lines.subrange(i + 1, lines.len() as int),
            width,
        ),
        rows_of_lines(theme, labels, lines.update(i, changed), width) == rows_of_lines(
            theme,
            labels,
            lines.subrange(0, i),
            width,
        ) + reflowed(theme, labels, changed, width) + rows_of_lines(
            theme,
            labels,
            lines.subrange(i + 1, lines.len() as int),
            width,
        ),
{
    let before = lines.subrange(0, i);
    let after = lines.subrange(i + 1, lines.len() as int);
    assert(lines =~= before.push(lines[i]) + after);
    assert(lines.update(i, changed) =~= before.push(changed) + after);
    lemma_rows_of_concat(theme, labels, before.push(lines[i]), after, width);
    lemma_rows_of_concat(theme, labels, before.push(changed), after, width);
    lemma_flattened_push(theme, labels, before, lines[i], 0, width, Seq::empty());
    lemma_flattened_push(theme, labels, before, changed, 0, width, Seq::empty());
}

/// A view that is scrolled up keeps its window when a line joins the
/// transcript: the first row in view stays the same row, every row that
/// was there stays what it was, and the window ends above the new rows.
pub proof fn lemma_push_preserves_scrolled_view(
    s: SessionV,
    kind: InlineMessageKind,
    segments: Seq<InlineSegmentV>,
)
    requires
        s.transcript_width > 0,
        0 < s.scroll_offset <= s.max_scroll_offset(),
        s.pushed(kind, segments).rows_at(s.transcript_width).len() <= usize::MAX,
    ensures
        s.pushed(kind, segments).top_row() == s.top_row(),
        s.top_row() + s.viewport_height() + s.scroll_offset == s.rows_at(
            s.transcript_width,
        ).len(),
        forall|r: int|
            0 <= r < s.rows_at(s.transcript_width).len() ==> s.pushed(kind, segments).rows_at(
                s.transcript_width,
            )[r] == s.rows_at(s.transcript_width)[r],
        s.pushed(kind, segments).rows_at(s.transcript_width).len() > s.rows_at(
            s.transcript_width,
        ).len(),
        0 < s.pushed(kind, segments).scroll_offset <= s.pushed(
            kind,
            segments,
        ).max_scroll_offset(),
        s.pushed(kind, segments).transcript_width == s.transcript_width,
{
    let w = s.transcript_width;
    let line = MessageLineV { kind, segments, revision: s.next_revision() };
    let grown = SessionV {
        lines: s.lines.push(line),
        line_revision_counter: s.next_revision(),
        ..s
    };
    lemma_flattened_push(s.theme, s.labels, s.lines, line, 0, w, Seq::empty());
    lemma_flattened_from_grows(s.theme, s.labels, s.lines, 0, w, Seq::empty());
    lemma_flattened_from_grows(s.theme, s.labels, s.lines.push(line), 0, w, Seq::empty());
    lemma_reflowed_is_not_empty(s.theme, s.labels, line, w);
    let old_rows = rows_of_lines(s.theme, s.labels, s.lines, w);
    let new_rows = rows_of_lines(s.theme, s.labels, s.lines.push(line), w);
    assert(new_rows == old_rows + reflowed(s.theme, s.labels, line, w));
    assert(s.rows_at(w).len() > s.viewport_height());
    assert(s.lines.len() > 0) by {
        if s.lines.len() == 0 {
            assert(s.rows_at(w).len() == 1);
        }
    }
    assert(s.rows_at(w) == old_rows);
    assert(grown.rows_at(w) == new_rows);
    let moved = grown.with_scroll_adjusted(s.max_scroll_offset());
    assert(moved == s.pushed(kind, segments));
    assert(moved.rows_at(w) == new_rows);
    assert(moved.max_scroll_offset() == grown.max_scroll_offset());
}

/// A view at the bottom stays at the bottom when a line joins the
/// transcript.
pub proof fn lemma_push_keeps_bottom_pinned(
    s: SessionV,
    kind: InlineMessageKind,
    segments: Seq<InlineSegmentV>,
)
    requires
        s.scroll_offset == 0,
    ensures
        s.pushed(kind, segments).scroll_offset == 0,
{
}

/// Whether every character of a cluster is whitespace.
pub open spec fn is_space_cluster(cluster: Seq<char>) -> bool {
    crate::text::is_blank(cluster)
}

/// The number of characters in the clusters before index `k`.
pub open spec fn cluster_offset(clusters: Seq<Seq<char>>, k: int) -> int
    decreases k,
{
    if k <= 0 {
        0
    } else if k > clusters.len() {
        cluster_offset(clusters, clusters.len() as int)
    } else {
        cluster_offset(clusters, k - 1) + clusters[k - 1].len()
    }
}

/// The index below `index` where the run of whitespace clusters that ends
/// at `index` begins.
pub open spec fn space_run_back(clusters: Seq<Seq<char>>, index: int) -> int
    decreases index,
{
    if 0 < index <= clusters.len() && is_space_cluster(clusters[index - 1]) {
        space_run_back(clusters, index - 1)
    } else {
        index
    }
}

/// The index below `index` where the run of word clusters that ends at
/// `index` begins.
pub open spec fn word_run_back(clusters: Seq<Seq<char>>, index: int) -> int
    decreases index,
{
    if 0 < index <= clusters.len() && !is_space_cluster(clusters[index - 1]) {
        word_run_back(clusters, index - 1)
    } else {
        index
    }
}

/// The index at or above `index` where the run of whitespace clusters
/// that begins at `index` ends.
pub open spec fn space_run_forward(clusters: Seq<Seq<char>>, index: int) -> int
    decreases clusters.len() - index,
{
    if 0 <= index < clusters.len() && is_space_cluster(clusters[index]) {
        space_run_forward(clusters, index + 1)
    } else {
        index
    }
}

/// The index at or above `index` where the run of word clusters that
/// begins at `index` ends.
pub open spec fn word_run_forward(clusters: Seq<Seq<char>>, index: int) -> int
    decreases clusters.len() - index,
{
    if 0 <= index < clusters.len() && !is_space_cluster(clusters[index]) {
        word_run_forward(clusters, index + 1)
    } else {
        index
    }
}

/// A place in a text of `len` characters, held within it.
pub open spec fn held(place: int, len: int) -> int {
    if place < 0 {
        0
    } else if place > len {
        len
    } else {
        place
    }
}

/// Where the cursor goes one word to the left: over the whitespace before
/// it, then over the word before that.
pub open spec fn word_left(input: Seq<char>, cursor: int) -> int {
    if cursor <= 0 || cursor > input.len() {
        held(cursor, input.len() as int)
    } else {
        let clusters = crate::ui::tui::wrap::graphemes_of(input.subrange(0, cursor));
        let index = word_run_back(clusters, space_run_back(clusters, clusters.len() as int));
        if index < clusters.len() {
            held(cluster_offset(clusters, index), cursor)
        } else {
            0
        }
    }
}

/// Where the cursor goes one word to the right: past the whitespace it
/// stands on, if any, and then to the end of the word that follows.
pub open spec fn word_right(input: Seq<char>, cursor: int) -> int {
    if cursor < 0 || cursor >= input.len() {
        held(cursor, input.len() as int)
    } else {
        let clusters = crate::ui::tui::wrap::graphemes_of(
            input.subrange(cursor, input.len() as int),
        );
        let after_word = word_run_forward(clusters, space_run_forward(clusters, 0));
        if after_word < clusters.len() {
            held(cursor + cluster_offset(clusters, after_word), input.len() as int)
        } else {
            input.len() as int
        }
    }
}

/// Where the cursor goes one cluster to the left.
pub open spec fn cluster_left(input: Seq<char>, cursor: int) -> int {
    if cursor <= 0 || cursor > input.len() {
        held(cursor, input.len() as int)
    } else {
        let clusters = crate::ui::tui::wrap::graphemes_of(input.subrange(0, cursor));
        if clusters.len() == 0 {
            0
        } else {
            held(cursor - clusters.last().len(), cursor)
        }
    }
}

/// Where the cursor goes one cluster to the right.
pub open spec fn cluster_right(input: Seq<char>, cursor: int) -> int {
    if cursor < 0 || cursor >= input.len() {
        held(cursor, input.len() as int)
    } else {
        let clusters = crate::ui::tui::wrap::graphemes_of(
            input.subrange(cursor, input.len() as int),
        );
        if clusters.len() == 0 {
            input.len() as int
        } else {
            held(cursor + clusters[0].len(), input.len() as int)
        }
    }
}

/// The end of the command token of an input: the index of its first
/// whitespace character after the slash, or its length.
pub open spec fn command_end(input: Seq<char>) -> int {
    crate::ui::tui::session::first_ws(input, 1)
}

/// The prefix of the slash command under the cursor: the input begins
/// with a slash, and the cursor stands after it and within the command
/// token.
pub open spec fn slash_prefix(input: Seq<char>, cursor: int) -> Option<Seq<char>> {
    if input.len() == 0 || input[0] != '/' || cursor <= 0 || cursor > command_end(input) {
        None
    } else {
        Some(input.subrange(1, command_end(input)))
    }
}

/// The end of the command token where the cursor is within it.
pub open spec fn slash_range_end(input: Seq<char>, cursor: int) -> Option<int> {
    if input.len() == 0 || input[0] != '/' || cursor > command_end(input) {
        None
    } else {
        Some(command_end(input))
    }
}

/// The suggestions for a prefix: the commands that begin with it, at most
/// the limit of them unless the prefix is empty.
pub open spec fn suggestions_of(prefix: Seq<char>) -> Seq<usize> {
    let all = crate::ui::slash::matching_commands(prefix);
    if prefix.len() > 0 && all.len() > SLASH_SUGGESTION_LIMIT {
        all.subrange(0, SLASH_SUGGESTION_LIMIT as int)
    } else {
        all
    }
}

/// The input with its command token replaced by `/name`, a space
/// separating it from what follows.
pub open spec fn with_command(input: Seq<char>, end: int, name: Seq<char>) -> Seq<char> {
    let suffix = input.subrange(end, input.len() as int);
    if suffix.len() == 0 {
        seq!['/'] + name
    } else if char_is_whitespace(suffix[0]) {
        seq!['/'] + name + suffix
    } else {
        seq!['/'] + name + seq![' '] + suffix
    }
}

impl SessionV {
    /// The session with the list of suggestions scrolled so that the
    /// selection is in view.
    pub open spec fn with_slash_synced(self) -> SessionV {
        match self.slash_selected {
            None => SessionV { slash_offset: 0, ..self },
            Some(selected) => if self.slash_visible_rows == 0 {
                self
            } else if selected < self.slash_offset {
                SessionV { slash_offset: selected, ..self }
            } else if selected - self.slash_visible_rows >= self.slash_offset {
                SessionV {
                    slash_offset: (selected + 1 - self.slash_visible_rows) as usize,
                    ..self
                }
            } else {
                self
            },
        }
    }

    /// The command that is selected.
    pub open spec fn selected_command(self) -> Option<usize> {
        match self.slash_selected {
            Some(i) => if i < self.slash_suggestions.len() {
                Some(self.slash_suggestions[i as int])
            } else {
                None
            },
            None => None,
        }
    }

    /// The session with the selected command shown in the input, the
    /// cursor after its name.
    pub open spec fn with_preview(self) -> SessionV {
        match self.selected_command() {
            None => self,
            Some(command) => match slash_range_end(self.input, self.cursor) {
                None => self,
                Some(end) => SessionV {
                    input: with_command(
                        self.input,
                        end,
                        crate::ui::slash::command_name(command as int),
                    ),
                    cursor: 1 + crate::ui::slash::command_name(command as int).len() as int,
                    needs_redraw: true,
                    ..self
                },
            },
        }
    }

    /// The session with `index` selected.
    pub open spec fn with_selection(self, index: Option<usize>, preview: bool) -> SessionV {
        let synced = SessionV { slash_selected: index, ..self }.with_slash_synced();
        if preview {
            synced.with_preview()
        } else {
            synced
        }
    }

    /// The session with a selection that fits its suggestions: none
    /// without suggestions, else the one it has where that is within the
    /// list, else the first.
    pub open spec fn with_selection_ensured(self) -> SessionV {
        if self.slash_suggestions.len() == 0 {
            if self.slash_selected is Some {
                self.with_selection(None, false)
            } else {
                self
            }
        } else {
            let fitting = match self.slash_selected {
                Some(i) => if i < self.slash_suggestions.len() {
                    i
                } else {
                    0
                },
                None => 0,
            };
            if self.slash_selected == Some(fitting) {
                self
            } else {
                self.with_selection(Some(fitting), false)
            }
        }
    }

    /// The session without suggestions.
    pub open spec fn with_slash_cleared(self) -> SessionV {
        if self.slash_suggestions.len() == 0 && self.slash_selected is None {
            self
        } else {
            SessionV {
                needs_redraw: true,
                ..SessionV {
                    slash_visible_rows: 0,
                    ..SessionV { slash_suggestions: Seq::empty(), ..self }.with_selection(
                        None,
                        false,
                    )
                }.with_transcript_rows_recalculated().with_scroll_bounds()
            }
        }
    }

    /// The session with the suggestions that fit its input and cursor.
    pub open spec fn with_slash_updated(self) -> SessionV {
        if !self.input_enabled {
            self.with_slash_cleared()
        } else {
            match slash_prefix(self.input, self.cursor) {
                None => self.with_slash_cleared(),
                Some(prefix) => {
                    let fresh = suggestions_of(prefix);
                    let changed = fresh != self.slash_suggestions;
                    let listed = SessionV { slash_suggestions: fresh, ..self };
                    let ensured = listed.with_selection_ensured();
                    let selection_changed = ensured.slash_selected != listed.slash_selected;
                    let synced = if changed && !selection_changed {
                        ensured.with_slash_synced()
                    } else {
                        ensured
                    };
                    if changed || selection_changed {
                        SessionV {
                            needs_redraw: true,
                            ..synced.with_transcript_rows_recalculated().with_scroll_bounds()
                        }
                    } else {
                        synced
                    }
                },
            }
        }
    }

    /// The session after a character was typed at the cursor. The delete
    /// character types nothing.
    pub open spec fn with_char(self, ch: char) -> SessionV {
        if ch == '\u{7f}' || self.input.len() >= usize::MAX {
            self
        } else {
            SessionV {
                input: self.input.insert(self.cursor, ch),
                cursor: self.cursor + 1,
                ..self
            }.with_slash_updated()
        }
    }

    /// The session after the cluster before the cursor was removed.
    pub open spec fn with_backspace(self) -> SessionV {
        if self.cursor == 0 {
            self
        } else {
            let start = cluster_left(self.input, self.cursor);
            SessionV {
                input: self.input.subrange(0, start) + self.input.subrange(
                    self.cursor,
                    self.input.len() as int,
                ),
                cursor: start,
                ..self
            }.with_slash_updated()
        }
    }

    /// The session after the cursor moved one cluster to the left.
    pub open spec fn moved_left(self) -> SessionV {
        if self.cursor == 0 {
            self
        } else {
            SessionV {
                cursor: cluster_left(self.input, self.cursor),
                ..self
            }.with_slash_updated()
        }
    }

    /// The session after the cursor moved one cluster to the right.
    pub open spec fn moved_right(self) -> SessionV {
        if self.cursor >= self.input.len() {
            self
        } else {
            SessionV {
                cursor: cluster_right(self.input, self.cursor),
                ..self
            }.with_slash_updated()
        }
    }

    /// The session after the selection moved up, round to the last.
    pub open spec fn slash_moved_up(self) -> SessionV {
        if self.slash_suggestions.len() == 0 {
            self
        } else {
            let target = match self.slash_selected {
                Some(i) => if i == 0 {
                    (self.slash_suggestions.len() - 1) as usize
                } else {
                    (i - 1) as usize
                },
                None => (self.slash_suggestions.len() - 1) as usize,
            };
            if self.slash_selected == Some(target) {
                self
            } else {
                SessionV { needs_redraw: true, ..self.with_selection(Some(target), true) }
            }
        }
    }

    /// The session after the selection moved down, round to the first.
    pub open spec fn slash_moved_down(self) -> SessionV {
        if self.slash_suggestions.len() == 0 {
            self
        } else {
            let target = match self.slash_selected {
                Some(i) => if i + 1 < self.slash_suggestions.len() {
                    (i + 1) as usize
                } else {
                    0
                },
                None => 0,
            };
            if self.slash_selected == Some(target) {
                self
            } else {
                SessionV { needs_redraw: true, ..self.with_selection(Some(target), true) }
            }
        }
    }

    /// The session after the selected command was put into the input for
    /// good: the cursor stands after the name and the space that follows
    /// it.
    pub open spec fn slash_applied(self) -> SessionV {
        match self.selected_command() {
            None => self,
            Some(command) => match slash_range_end(self.input, self.cursor) {
                None => self,
                Some(end) => {
                    let name = crate::ui::slash::command_name(command as int);
                    let suffix = self.input.subrange(end, self.input.len() as int);
                    let spaced = suffix.len() == 0 || !char_is_whitespace(suffix[0]);
                    SessionV {
                        needs_redraw: true,
                        ..SessionV {
                            input: if suffix.len() == 0 {
                                seq!['/'] + name + seq![' ']
                            } else {
                                with_command(self.input, end, name)
                            },
                            cursor: if spaced {
                                2 + name.len() as int
                            } else {
                                1 + name.len() as int
                            },
                            ..self
                        }.with_slash_updated()
                    }
                },
            },
        }
    }

    /// Whether applying the selected command does anything.
    pub open spec fn can_apply_slash(self) -> bool {
        self.selected_command() is Some && slash_range_end(self.input, self.cursor) is Some
    }
}

fn capped_offset(clusters: &Vec<String>, k: usize, cap: usize) -> (r: usize)
    requires
        k <= clusters@.len(),
    ensures
        r == held(cluster_offset(text_views(clusters@), k as int), cap as int),
        cluster_offset(text_views(clusters@), k as int) >= 0,
{
    let ghost views = text_views(clusters@);
    let mut total: usize = 0;
    let mut i: usize = 0;
    while i < k
        invariant
            i <= k <= clusters@.len(),
            views == text_views(clusters@),
            total <= cap,
            total == held(cluster_offset(views, i as int), cap as int),
            cluster_offset(views, i as int) >= 0,
        decreases k - i,
    {
        let n = clusters[i].as_str().unicode_len();
        total = if n > cap - total {
            cap
        } else {
            total + n
        };
        i += 1;
    }
    total
}

fn cluster_is_space(cluster: &str) -> (r: bool)
    ensures
        r == is_space_cluster(cluster@),
{
    crate::text::str_is_blank(cluster)
}

impl Session {
    fn input_before_cursor(&self) -> (r: String)
        requires
            self.wf(),
        ensures
            r@ == self@.input.subrange(0, self@.cursor),
    {
        let piece = slice_chars(self.input.as_slice(), 0, self.cursor);
        string_of(piece.as_slice())
    }

    fn input_after_cursor(&self) -> (r: String)
        requires
            self.wf(),
        ensures
            r@ == self@.input.subrange(self@.cursor, self@.input.len() as int),
    {
        let piece = slice_chars(self.input.as_slice(), self.cursor, self.input.len());
        string_of(piece.as_slice())
    }

    fn cluster_left(&self) -> (r: usize)
        requires
            self.wf(),
        ensures
            r == cluster_left(self@.input, self@.cursor),
            r <= self.cursor,
    {
        if self.cursor == 0 {
            return 0;
        }
        let clusters = crate::ui::tui::wrap::graphemes(self.input_before_cursor().as_str());
        let n = clusters.len();
        if n == 0 {
            return 0;
        }
        let last = clusters[n - 1].as_str().unicode_len();
        if last > self.cursor {
            0
        } else {
            self.cursor - last
        }
    }

    fn cluster_right(&self) -> (r: usize)
        requires
            self.wf(),
        ensures
            r == cluster_right(self@.input, self@.cursor),
            r <= self.input@.len(),
    {
        if self.cursor >= self.input.len() {
            return self.cursor;
        }
        let clusters = crate::ui::tui::wrap::graphemes(self.input_after_cursor().as_str());
        if clusters.len() == 0 {
            return self.input.len();
        }
        let first = clusters[0].as_str().unicode_len();
        if first > self.input.len() - self.cursor {
            self.input.len()
        } else {
            self.cursor + first
        }
    }

    fn command_end(&self) -> (r: usize)
        ensures
            self.input@.len() > 0 ==> r == command_end(self@.input),
            r <= self.input@.len(),
    {
        if self.input.len() == 0 {
            return 0;
        }
        let mut end: usize = 1;
        while end < self.input.len() && !self.input[end].is_whitespace()
            invariant
                1 <= end <= self.input.len(),
                first_ws(self.input@, end as int) == first_ws(self.input@, 1),
            decreases self.input.len() - end,
        {
            end += 1;
        }
        end
    }

    /// The prefix of the slash command under the cursor.
    pub fn current_slash_prefix(&self) -> (r: Option<String>)
        requires
            self.wf(),
        ensures
            opt_text(r) == slash_prefix(self@.input, self@.cursor),
    {
        if self.input.len() == 0 || self.input[0] != '/' || self.cursor == 0 {
            return None;
        }
        let end = self.command_end();
        if self.cursor > end {
            return None;
        }
        let piece = slice_chars(self.input.as_slice(), 1, end);
        Some(string_of(piece.as_slice()))
    }

    fn slash_command_range(&self) -> (r: Option<usize>)
        ensures
            match r {
                Some(end) => slash_range_end(self@.input, self@.cursor) == Some(end as int) && end
                    <= self.input@.len(),
                None => slash_range_end(self@.input, self@.cursor) is None,
            },
    {
        if self.input.len() == 0 || self.input[0] != '/' {
            return None;
        }
        let end = self.command_end();
        if self.cursor > end {
            return None;
        }
        Some(end)
    }

    fn sync_slash_state(&mut self)
        requires
            old(self).wf(),
        ensures
            final(self).wf(),
            final(self)@ == old(self)@.with_slash_synced(),
    {
        let selected = match self.slash_selected {
            Some(selected) => selected,
            None => {
                self.slash_offset = 0;
                return ;
            },
        };
        if self.slash_visible_rows == 0 {
            return ;
        }
        if selected < self.slash_offset {
            self.slash_offset = selected;
        } else if selected >= self.slash_visible_rows && selected - self.slash_visible_rows
            >= self.slash_offset {
            self.slash_offset = selected - self.slash_visible_rows + 1;
        }
    }

    fn selected_slash_command(&self) -> (r: Option<usize>)
        requires
            self.wf(),
        ensures
            r == self@.selected_command(),
            r is Some ==> r->0 < crate::ui::slash::SLASH_COMMAND_COUNT,
    {
        match self.slash_selected {
            Some(i) => if i < self.slash_suggestions.len() {
                Some(self.slash_suggestions[i])
            } else {
                None
            },
            None => None,
        }
    }

    fn command_input(&self, end: usize, name: &str) -> (r: Vec<char>)
        requires
            end <= self.input@.len(),
        ensures
            r@ == with_command(self@.input, end as int, name@),
    {
        let mut out: Vec<char> = Vec::new();
        out.push('/');
        let name_chars = chars_of(name);
        crate::text::extend_chars(&mut out, name_chars.as_slice());
        let suffix = slice_chars(self.input.as_slice(), end, self.input.len());
        if suffix.len() > 0 {
            if !suffix[0].is_whitespace() {
                out.push(' ');
            }
            crate::text::extend_chars(&mut out, suffix.as_slice());
        }
        assert(out@ =~= with_command(self@.input, end as int, name@));
        out
    }

    fn preview_selected_slash_suggestion(&mut self)
        requires
            old(self).wf(),
        ensures
            final(self).wf(),
            final(self)@ == old(self)@.with_preview(),
    {
        let command = match self.selected_slash_command() {
            Some(command) => command,
            None => {
                return ;
            },
        };
        let end = match self.slash_command_range() {
            Some(end) => end,
            None => {
                return ;
            },
        };
        let info = crate::ui::slash::command_at(command);
        let new_input = self.command_input(end, info.name);
        let name_len = info.name.unicode_len();
        let total = new_input.len();
        assert(total >= 1 + name_len);
        self.input = new_input;
        self.cursor = 1 + name_len;
        self.needs_redraw = true;
    }

    fn apply_slash_selection(&mut self, index: Option<usize>, preview: bool)
        requires
            old(self).wf(),
        ensures
            final(self).wf(),
            final(self)@ == old(self)@.with_selection(index, preview),
    {
        self.slash_selected = index;
        self.sync_slash_state();
        if preview {
            self.preview_selected_slash_suggestion();
        }
    }

    fn ensure_slash_selection(&mut self) -> (r: bool)
        requires
            old(self).wf(),
        ensures
            final(self).wf(),
            final(self)@ == old(self)@.with_selection_ensured(),
            r == (final(self)@.slash_selected != old(self)@.slash_selected),
    {
        if self.slash_suggestions.len() == 0 {
            if self.slash_selected.is_some() {
                self.apply_slash_selection(None, false);
                return true;
            }
            return false;
        }
        let fitting = match self.slash_selected {
            Some(i) => if i < self.slash_suggestions.len() {
                i
            } else {
                0
            },
            None => 0,
        };
        let same = match self.slash_selected {
            Some(i) => i == fitting,
            None => false,
        };
        if same {
            false
        } else {
            self.apply_slash_selection(Some(fitting), false);
            true
        }
    }

    fn clear_slash_suggestions(&mut self)
        requires
            old(self).wf(),
        ensures
            final(self).wf(),
            final(self)@ == old(self)@.with_slash_cleared(),
    {
        if self.slash_suggestions.len() == 0 && self.slash_selected.is_none() {
            return ;
        }
        self.slash_suggestions = Vec::new();
        self.invalidate_scroll_metrics();
        assert(self@.slash_suggestions =~= Seq::empty());
        self.apply_slash_selection(None, false);
        self.slash_visible_rows = 0;
        self.recalculate_transcript_rows();
        self.enforce_scroll_bounds();
        self.mark_dirty();
    }

    /// Brings the suggestions in line with the input and the cursor.
    pub fn update_slash_suggestions(&mut self)
        requires
            old(self).wf(),
        ensures
            final(self).wf(),
            final(self)@ == old(self)@.with_slash_updated(),
    {
        if !self.input_enabled {
            self.clear_slash_suggestions();
            return ;
        }
        let prefix = match self.current_slash_prefix() {
            Some(prefix) => prefix,
            None => {
                self.clear_slash_suggestions();
                return ;
            },
        };
        let mut fresh = crate::ui::slash::suggestions_for(prefix.as_str());
        if !prefix.as_str().is_empty() && fresh.len() > SLASH_SUGGESTION_LIMIT {
            let ghost all = fresh@;
            fresh.truncate(SLASH_SUGGESTION_LIMIT);
            assert(fresh@ =~= all.subrange(0, SLASH_SUGGESTION_LIMIT as int));
        }
        let changed = !same_indices(&self.slash_suggestions, &fresh);
        let ghost before = self@;
        if changed {
            self.slash_suggestions = fresh;
            self.invalidate_scroll_metrics();
        } else {
            assert(before == SessionV { slash_suggestions: fresh@, ..before });
        }
        let selection_changed = self.ensure_slash_selection();
        if changed && !selection_changed {
            self.sync_slash_state();
        }
        if changed || selection_changed {
            self.recalculate_transcript_rows();
            self.enforce_scroll_bounds();
            self.mark_dirty();
        }
    }

    /// Types a character at the cursor.
    pub fn insert_char(&mut self, ch: char)
        requires
            old(self).wf(),
        ensures
            final(self).wf(),
            final(self)@ == old(self)@.with_char(ch),
    {
        if ch == '\u{7f}' || self.input.len() >= usize::MAX {
            return ;
        }
        self.input.insert(self.cursor, ch);
        self.cursor = self.cursor + 1;
        self.update_slash_suggestions();
    }

    /// Removes the cluster before the cursor.
    pub fn delete_char(&mut self)
        requires
            old(self).wf(),
        ensures
            final(self).wf(),
            final(self)@ == old(self)@.with_backspace(),
    {
        if self.cursor == 0 {
            return ;
        }
        let start = self.cluster_left();
        let mut kept = slice_chars(self.input.as_slice(), 0, start);
        let rest = slice_chars(self.input.as_slice(), self.cursor, self.input.len());
        crate::text::extend_chars(&mut kept, rest.as_slice());
        self.input = kept;
        self.cursor = start;
        self.update_slash_suggestions();
    }

    /// Moves the cursor one cluster to the left.
    pub fn move_left(&mut self)
        requires
            old(self).wf(),
        ensures
            final(self).wf(),
            final(self)@ == old(self)@.moved_left(),
    {
        if self.cursor == 0 {
            return ;
        }
        self.cursor = self.cluster_left();
        self.update_slash_suggestions();
    }

    /// Moves the cursor one cluster to the right.
    pub fn move_right(&mut self)
        requires
            old(self).wf(),
        ensures
            final(self).wf(),
            final(self)@ == old(self)@.moved_right(),
    {
        if self.cursor >= self.input.len() {
            return ;
        }
        self.cursor = self.cluster_right();
        self.update_slash_suggestions();
    }

    fn word_left_target(&self) -> (r: usize)
        requires
            self.wf(),
        ensures
            r == word_left(self@.input, self@.cursor),
            r <= self.input@.len(),
    {
        if self.cursor == 0 {
            return 0;
        }
        let clusters = crate::ui::tui::wrap::graphemes(self.input_before_cursor().as_str());
        let ghost views = text_views(clusters@);
        let mut index: usize = clusters.len();
        while index > 0 && cluster_is_space(clusters[index - 1].as_str())
            invariant
                index <= clusters.len(),
                views == text_views(clusters@),
                space_run_back(views, index as int) == space_run_back(views, views.len() as int),
            decreases index,
        {
            index -= 1;
        }
        let ghost after_space = index as int;
        assert(after_space == space_run_back(views, views.len() as int));
        while index > 0 && !cluster_is_space(clusters[index - 1].as_str())
            invariant
                index <= clusters.len(),
                views == text_views(clusters@),
                word_run_back(views, index as int) == word_run_back(views, after_space),
            decreases index,
        {
            index -= 1;
        }
        assert(index == word_run_back(views, after_space));
        if index < clusters.len() {
            capped_offset(&clusters, index, self.cursor)
        } else {
            0
        }
    }

    /// Moves the cursor one word to the left.
    pub fn move_left_word(&mut self)
        requires
            old(self).wf(),
        ensures
            final(self).wf(),
            final(self)@ == (SessionV {
                cursor: word_left(old(self)@.input, old(self)@.cursor),
                ..old(self)@
            }),
    {
        self.cursor = self.word_left_target();
    }

    fn word_right_target(&self) -> (r: usize)
        requires
            self.wf(),
        ensures
            r == word_right(self@.input, self@.cursor),
            r <= self.input@.len(),
    {
        if self.cursor >= self.input.len() {
            return self.cursor;
        }
        let clusters = crate::ui::tui::wrap::graphemes(self.input_after_cursor().as_str());
        let ghost views = text_views(clusters@);
        let room = self.input.len() - self.cursor;
        let mut index: usize = 0;
        while index < clusters.len() && cluster_is_space(clusters[index].as_str())
            invariant
                index <= clusters.len(),
                views == text_views(clusters@),
                space_run_forward(views, index as int) == space_run_forward(views, 0),
            decreases clusters.len() - index,
        {
            index += 1;
        }
        assert(index == space_run_forward(views, 0));
        let ghost after_space = index as int;
        while index < clusters.len() && !cluster_is_space(clusters[index].as_str())
            invariant
                index <= clusters.len(),
                views == text_views(clusters@),
                word_run_forward(views, index as int) == word_run_forward(views, after_space),
            decreases clusters.len() - index,
        {
            index += 1;
        }
        assert(index == word_run_forward(views, after_space));
        if index < clusters.len() {
            let moved = capped_offset(&clusters, index, room);
            self.cursor + moved
        } else {
            self.input.len()
        }
    }

    /// Moves the cursor one word to the right.
    pub fn move_right_word(&mut self)
        requires
            old(self).wf(),
        ensures
            final(self).wf(),
            final(self)@ == (SessionV {
                cursor: word_right(old(self)@.input, old(self)@.cursor),
                ..old(self)@
            }),
    {
        self.cursor = self.word_right_target();
    }

    /// Moves the cursor to the start of the input.
    pub fn move_to_start(&mut self)
        requires
            old(self).wf(),
        ensures
            final(self).wf(),
            final(self)@ == (SessionV { cursor: 0, ..old(self)@ }),
    {
        self.cursor = 0;
    }

    /// Moves the cursor to the end of the input.
    pub fn move_to_end(&mut self)
        requires
            old(self).wf(),
        ensures
            final(self).wf(),
            final(self)@ == (SessionV { cursor: old(self)@.input.len() as int, ..old(self)@ }),
    {
        self.cursor = self.input.len();
    }

    /// Empties the input.
    pub fn clear_input(&mut self)
        requires
            old(self).wf(),
        ensures
            final(self).wf(),
            final(self)@ == (SessionV {
                needs_redraw: true,
                ..SessionV { input: Seq::empty(), cursor: 0, ..old(self)@ }.with_slash_updated()
            }),
    {
        self.input = Vec::new();
        self.cursor = 0;
        self.update_slash_suggestions();
        self.mark_dirty();
    }

    /// Sets the input, the cursor at its end.
    pub fn set_input(&mut self, content: &str)
        requires
            old(self).wf(),
        ensures
            final(self).wf(),
            final(self)@ == (SessionV {
                input: content@,
                cursor: content@.len() as int,
                ..old(self)@
            }).with_slash_updated(),
    {
        self.input = chars_of(content);
        self.cursor = self.input.len();
        self.update_slash_suggestions();
    }

    /// Puts the cursor after `cursor` characters of the input, or at its
    /// end where the input is shorter.
    pub fn set_cursor(&mut self, cursor: usize)
        requires
            old(self).wf(),
        ensures
            final(self).wf(),
            final(self)@ == (SessionV {
                cursor: held(cursor as int, old(self)@.input.len() as int),
                ..old(self)@
            }),
    {
        self.cursor = if cursor > self.input.len() {
            self.input.len()
        } else {
            cursor
        };
    }

    fn move_slash_selection_up(&mut self) -> (r: bool)
        requires
            old(self).wf(),
        ensures
            final(self).wf(),
            final(self)@ == old(self)@.slash_moved_up(),
            r == (old(self)@.slash_suggestions.len() > 0 && old(self)@.slash_selected != Some(
                slash_target_up(old(self)@),
            )),
    {
        if self.slash_suggestions.len() == 0 {
            return false;
        }
        let visible_len = self.slash_suggestions.len();
        let target = match self.slash_selected {
            Some(i) => if i == 0 {
                visible_len - 1
            } else {
                i - 1
            },
            None => visible_len - 1,
        };
        let same = match self.slash_selected {
            Some(i) => i == target,
            None => false,
        };
        if same {
            false
        } else {
            self.apply_slash_selection(Some(target), true);
            self.mark_dirty();
            true
        }
    }

    fn move_slash_selection_down(&mut self) -> (r: bool)
        requires
            old(self).wf(),
        ensures
            final(self).wf(),
            final(self)@ == old(self)@.slash_moved_down(),
            r == (old(self)@.slash_suggestions.len() > 0 && old(self)@.slash_selected != Some(
                slash_target_down(old(self)@),
            )),
    {
        if self.slash_suggestions.len() == 0 {
            return false;
        }
        let visible_len = self.slash_suggestions.len();
        let target = match self.slash_selected {
            Some(i) => if i < visible_len - 1 {
                i + 1
            } else {
                0
            },
            None => 0,
        };
        let same = match self.slash_selected {
            Some(i) => i == target,
            None => false,
        };
        if same {
            false
        } else {
            self.apply_slash_selection(Some(target), true);
            self.mark_dirty();
            true
        }
    }

    fn applied_command_input(&self, end: usize, command: usize) -> (r: (Vec<char>, usize))
        requires
            self.wf(),
            end <= self.input@.len(),
            command < crate::ui::slash::SLASH_COMMAND_COUNT,
        ensures
            ({
                let name = crate::ui::slash::command_name(command as int);
                let suffix = self@.input.subrange(end as int, self@.input.len() as int);
                &&& r.0@ == if suffix.len() == 0 {
                    seq!['/'] + name + seq![' ']
                } else {
                    with_command(self@.input, end as int, name)
                }
                &&& r.1 == if suffix.len() == 0 || !char_is_whitespace(suffix[0]) {
                    2 + name.len()
                } else {
                    1 + name.len()
                }
                &&& r.1 <= r.0@.len()
            }),
    {
        let info = crate::ui::slash::command_at(command);
        let name_len = info.name.unicode_len();
        let has_suffix = end < self.input.len();
        let spaced = !has_suffix || !self.input[end].is_whitespace();
        let mut new_input = self.command_input(end, info.name);
        if !has_suffix {
            new_input.push(' ');
            assert(new_input@ =~= seq!['/'] + info.name@ + seq![' ']);
        }
        let total = new_input.len();
        let cursor = if spaced {
            assert(total >= 2 + name_len);
            name_len + 2
        } else {
            assert(total >= 1 + name_len);
            name_len + 1
        };
        (new_input, cursor)
    }

    fn apply_selected_slash_suggestion(&mut self) -> (r: bool)
        requires
            old(self).wf(),
        ensures
            final(self).wf(),
            final(self)@ == old(self)@.slash_applied(),
            r == old(self)@.can_apply_slash(),
    {
        let command = match self.selected_slash_command() {
            Some(command) => command,
            None => {
                return false;
            },
        };
        let end = match self.slash_command_range() {
            Some(end) => end,
            None => {
                return false;
            },
        };
        let (new_input, cursor) = self.applied_command_input(end, command);
        self.input = new_input;
        self.cursor = cursor;
        self.update_slash_suggestions();
        self.mark_dirty();
        true
    }
}

/// The selection one step up.
pub open spec fn slash_target_up(s: SessionV) -> usize {
    match s.slash_selected {
        Some(i) => if i == 0 {
            (s.slash_suggestions.len() - 1) as usize
        } else {
            (i - 1) as usize
        },
        None => (s.slash_suggestions.len() - 1) as usize,
    }
}

/// The selection one step down.
pub open spec fn slash_target_down(s: SessionV) -> usize {
    match s.slash_selected {
        Some(i) => if i + 1 < s.slash_suggestions.len() {
            (i + 1) as usize
        } else {
            0
        },
        None => 0,
    }
}

fn same_indices(a: &Vec<usize>, b: &Vec<usize>) -> (r: bool)
    ensures
        r == (a@ == b@),
{
    if a.len() != b.len() {
        return false;
    }
    let mut i: usize = 0;
    while i < a.len()
        invariant
            i <= a.len(),
            a.len() == b.len(),
            forall|k: int| 0 <= k < i ==> a@[k] == b@[k],
        decreases a.len() - i,
    {
        if a[i] != b[i] {
            return false;
        }
        i += 1;
    }
    assert(a@ =~= b@);
    true
}

/// A key, as the terminal reports it.
#[derive(Clone, Copy, Debug, PartialEq, Eq, Structural)]
pub enum KeyCode {
    Char(char),
    Esc,
    PageUp,
    PageDown,
    Up,
    Down,
    Enter,
    Backspace,
    Left,
    Right,
    Home,
    End,
    Tab,
    BackTab,
    Other,
}

/// The modifier keys held with a key.
#[derive(Clone, Copy, Debug, PartialEq, Eq, Structural)]
pub struct KeyModifiers {
    pub control: bool,
    pub alt: bool,
    pub meta: bool,
    pub command: bool,
    pub shift: bool,
}

/// Whether a key went down, is held, or went up.
#[derive(Clone, Copy, Debug, PartialEq, Eq, Structural)]
pub enum KeyEventKind {
    Press,
    Repeat,
    Release,
}

/// A key event.
#[derive(Clone, Copy, Debug, PartialEq, Eq, Structural)]
pub struct KeyEvent {
    pub code: KeyCode,
    pub modifiers: KeyModifiers,
    pub kind: KeyEventKind,
}

/// What the terminal reports.
#[derive(Clone, Copy, Debug, PartialEq, Eq, Structural)]
pub enum TerminalEvent {
    Key(KeyEvent),
    Resize(u16, u16),
    Other,
}

impl KeyModifiers {
    /// No modifier.
    pub fn none() -> (r: KeyModifiers)
        ensures
            r == (KeyModifiers {
                control: false,
                alt: false,
                meta: false,
                command: false,
                shift: false,
            }),
    {
        KeyModifiers { control: false, alt: false, meta: false, command: false, shift: false }
    }

    /// Whether the key counts as held with Alt: Alt itself, or Meta
    /// without the command key.
    pub open spec fn has_alt(self) -> bool {
        self.alt || (!self.command && self.meta)
    }

    /// Whether the key counts as held with the command key.
    pub open spec fn has_command(self) -> bool {
        self.command || (self.meta && !self.has_alt())
    }
}

impl KeyEvent {
    /// A key that went down with the given modifiers.
    pub fn new(code: KeyCode, modifiers: KeyModifiers) -> (r: KeyEvent)
        ensures
            r == (KeyEvent { code, modifiers, kind: KeyEventKind::Press }),
    {
        KeyEvent { code, modifiers, kind: KeyEventKind::Press }
    }
}

impl SessionV {
    /// The session with a modal over it: the input is off and the cursor
    /// hidden until the modal closes.
    pub open spec fn with_modal(self, title: Seq<char>, lines: Seq<Seq<char>>) -> SessionV {
        SessionV {
            modal: Some(
                ModalStateV {
                    title,
                    lines,
                    restore_input: self.input_enabled,
                    restore_cursor: self.cursor_visible,
                },
            ),
            input_enabled: false,
            cursor_visible: false,
            needs_redraw: true,
            ..self
        }
    }

    /// The session with its modal closed: input and cursor are as they
    /// were before it opened.
    pub open spec fn without_modal(self) -> SessionV {
        match self.modal {
            Some(state) => SessionV {
                modal: None,
                input_enabled: state.restore_input,
                cursor_visible: state.restore_cursor,
                needs_redraw: true,
                ..self
            },
            None => self,
        }
    }

    /// Whether the keys that move through the suggestions are taken:
    /// the input is on and there are suggestions.
    pub open spec fn slash_navigation_available(self) -> bool {
        self.input_enabled && self.slash_suggestions.len() > 0
    }

    /// Whether a key is used up by the suggestions: Up, Down and Shift-Tab
    /// where they move the selection, Tab where it puts a command into
    /// the input.
    pub open spec fn slash_takes_key(self, key: KeyEvent) -> bool {
        if !self.slash_navigation_available() || key.modifiers.control || key.modifiers.has_alt() {
            false
        } else {
            match key.code {
                KeyCode::Up => self.slash_selected != Some(slash_target_up(self)),
                KeyCode::BackTab => self.slash_selected != Some(slash_target_up(self)),
                KeyCode::Down => self.slash_selected != Some(slash_target_down(self)),
                KeyCode::Tab => self.can_apply_slash(),
                _ => false,
            }
        }
    }

    /// The session after the suggestions saw a key.
    pub open spec fn after_slash_key(self, key: KeyEvent) -> SessionV {
        if !self.slash_navigation_available() || key.modifiers.control || key.modifiers.has_alt() {
            self
        } else {
            match key.code {
                KeyCode::Up => self.slash_moved_up(),
                KeyCode::BackTab => self.slash_moved_up(),
                KeyCode::Down => self.slash_moved_down(),
                KeyCode::Tab => self.slash_applied(),
                _ => self,
            }
        }
    }

    /// The session with the scroll offset moved by a key.
    pub open spec fn scrolled(self, code: KeyCode) -> SessionV {
        SessionV {
            scroll_offset: match code {
                KeyCode::PageUp => if self.scroll_offset + self.viewport_height()
                    > self.max_scroll_offset() {
                    self.max_scroll_offset() as usize
                } else {
                    (self.scroll_offset + self.viewport_height()) as usize
                },
                KeyCode::PageDown => if self.scroll_offset > self.viewport_height() {
                    (self.scroll_offset - self.viewport_height()) as usize
                } else {
                    0
                },
                KeyCode::Up => if self.scroll_offset + 1 > self.max_scroll_offset() {
                    self.max_scroll_offset() as usize
                } else {
                    (self.scroll_offset + 1) as usize
                },
                KeyCode::Down => if self.scroll_offset > 0 {
                    (self.scroll_offset - 1) as usize
                } else {
                    0
                },
                _ => self.scroll_offset,
            },
            needs_redraw: true,
            ..self
        }
    }

    /// The session after a character key, the suggestions having passed
    /// on it. With the command key, `a` and `e` jump to the ends of the
    /// input; with Alt, `b` and `f` move by word; with neither and without
    /// Control, the character is typed.
    pub open spec fn after_char(self, ch: char, m: KeyModifiers) -> SessionV {
        if !self.input_enabled {
            self
        } else if m.has_command() {
            if ch == 'a' || ch == 'A' {
                SessionV { cursor: 0, needs_redraw: true, ..self }
            } else if ch == 'e' || ch == 'E' {
                SessionV { cursor: self.input.len() as int, needs_redraw: true, ..self }
            } else {
                self
            }
        } else if m.has_alt() {
            if ch == 'b' || ch == 'B' {
                SessionV { cursor: word_left(self.input, self.cursor), needs_redraw: true, ..self }
            } else if ch == 'f' || ch == 'F' {
                SessionV { cursor: word_right(self.input, self.cursor), needs_redraw: true, ..self }
            } else {
                self
            }
        } else if !m.control {
            SessionV { needs_redraw: true, ..self.with_char(ch) }
        } else {
            self
        }
    }

    /// The session after an arrow to the left or to the right.
    pub open spec fn after_arrow(self, left: bool, m: KeyModifiers) -> SessionV {
        if !self.input_enabled {
            self
        } else {
            let moved = if m.has_command() {
                SessionV {
                    cursor: if left {
                        0
                    } else {
                        self.input.len() as int
                    },
                    ..self
                }
            } else if m.has_alt() {
                SessionV {
                    cursor: if left {
                        word_left(self.input, self.cursor)
                    } else {
                        word_right(self.input, self.cursor)
                    },
                    ..self
                }
            } else if left {
                self.moved_left()
            } else {
                self.moved_right()
            };
            SessionV { needs_redraw: true, ..moved }
        }
    }

    /// The session after a key that the suggestions passed on.
    pub open spec fn after_plain_key(self, key: KeyEvent) -> SessionV {
        let m = key.modifiers;
        match key.code {
            KeyCode::Char(ch) => if m.control && (ch == 'c' || ch == 'd') {
                SessionV { needs_redraw: true, ..self }
            } else {
                self.after_char(ch, m)
            },
            KeyCode::Esc => if self.modal is Some {
                self.without_modal()
            } else {
                SessionV { needs_redraw: true, ..self }
            },
            KeyCode::PageUp => self.scrolled(key.code),
            KeyCode::PageDown => self.scrolled(key.code),
            KeyCode::Up => self.scrolled(key.code),
            KeyCode::Down => self.scrolled(key.code),
            KeyCode::Enter => if self.input_enabled {
                SessionV {
                    needs_redraw: true,
                    ..SessionV { input: Seq::empty(), cursor: 0, ..self }.with_slash_updated()
                }
            } else {
                self
            },
            KeyCode::Backspace => if self.input_enabled {
                SessionV { needs_redraw: true, ..self.with_backspace() }
            } else {
                self
            },
            KeyCode::Left => self.after_arrow(true, m),
            KeyCode::Right => self.after_arrow(false, m),
            KeyCode::Home => if self.input_enabled {
                SessionV { cursor: 0, needs_redraw: true, ..self }
            } else {
                self
            },
            KeyCode::End => if self.input_enabled {
                SessionV { cursor: self.input.len() as int, needs_redraw: true, ..self }
            } else {
                self
            },
            _ => self,
        }
    }

    /// The session after a key: the suggestions see it first, and what
    /// they do not use goes on.
    pub open spec fn after_key(self, key: KeyEvent) -> SessionV {
        if self.slash_takes_key(key) {
            self.after_slash_key(key)
        } else {
            self.after_slash_key(key).after_plain_key(key)
        }
    }

    /// What a key tells the owner of the session.
    pub open spec fn event_for_key(self, key: KeyEvent) -> Option<
        crate::ui::tui::types::InlineEventV,
    > {
        if self.slash_takes_key(key) {
            None
        } else {
            self.after_slash_key(key).event_for_plain_key(key)
        }
    }

    /// What a key that the suggestions passed on tells the owner of the
    /// session.
    pub open spec fn event_for_plain_key(self, key: KeyEvent) -> Option<
        crate::ui::tui::types::InlineEventV,
    > {
        {
            let s = self;
            match key.code {
                KeyCode::Char(ch) => if key.modifiers.control && ch == 'c' {
                    Some(crate::ui::tui::types::InlineEventV::Interrupt)
                } else if key.modifiers.control && ch == 'd' {
                    Some(crate::ui::tui::types::InlineEventV::Exit)
                } else {
                    None
                },
                KeyCode::Esc => if s.modal is Some {
                    None
                } else {
                    Some(crate::ui::tui::types::InlineEventV::Cancel)
                },
                KeyCode::PageUp => Some(crate::ui::tui::types::InlineEventV::ScrollPageUp),
                KeyCode::PageDown => Some(crate::ui::tui::types::InlineEventV::ScrollPageDown),
                KeyCode::Up => Some(crate::ui::tui::types::InlineEventV::ScrollLineUp),
                KeyCode::Down => Some(crate::ui::tui::types::InlineEventV::ScrollLineDown),
                KeyCode::Enter => if s.input_enabled {
                    Some(crate::ui::tui::types::InlineEventV::Submit(s.input))
                } else {
                    None
                },
                _ => None,
            }
        }
    }

    /// The session after a terminal event: a key that went down or is
    /// held is a key; a new size sets the rows; anything else changes
    /// nothing.
    pub open spec fn after_event(self, event: TerminalEvent) -> SessionV {
        match event {
            TerminalEvent::Key(key) => if key.kind == KeyEventKind::Release {
                self
            } else {
                self.after_key(key)
            },
            TerminalEvent::Resize(_, rows) => SessionV {
                needs_redraw: true,
                ..self.with_view_rows(rows)
            },
            TerminalEvent::Other => self,
        }
    }
}

/// While a modal is open, Esc closes it and tells the owner nothing; the
/// input stays off until then.
pub proof fn lemma_modal_captures_input(
    s: SessionV,
    title: Seq<char>,
    lines: Seq<Seq<char>>,
    m: KeyModifiers,
)
    ensures
        !s.with_modal(title, lines).input_enabled,
        s.with_modal(title, lines).modal is Some,
        s.with_modal(title, lines).without_modal().input_enabled == s.input_enabled,
        s.with_modal(title, lines).without_modal().cursor_visible == s.cursor_visible,
        s.with_modal(title, lines).without_modal().modal is None,
        s.with_modal(title, lines).event_for_key(
            KeyEvent { code: KeyCode::Esc, modifiers: m, kind: KeyEventKind::Press },
        ) is None,
        s.with_modal(title, lines).after_key(
            KeyEvent { code: KeyCode::Esc, modifiers: m, kind: KeyEventKind::Press },
        ).modal is None,
{
}

impl Session {
    fn show_modal(&mut self, title: String, lines: Vec<String>)
        requires
            old(self).wf(),
        ensures
            final(self).wf(),
            final(self)@ == old(self)@.with_modal(title@, text_views(lines@)),
    {
        let state = ModalState {
            title,
            lines,
            restore_input: self.input_enabled,
            restore_cursor: self.cursor_visible,
        };
        self.input_enabled = false;
        self.cursor_visible = false;
        self.modal = Some(state);
        self.needs_redraw = true;
    }

    fn close_modal(&mut self)
        requires
            old(self).wf(),
        ensures
            final(self).wf(),
            final(self)@ == old(self)@.without_modal(),
    {
        if let Some(state) = self.modal.take() {
            self.input_enabled = state.restore_input;
            self.cursor_visible = state.restore_cursor;
            self.needs_redraw = true;
        }
    }

    fn try_handle_slash_navigation(&mut self, key: &KeyEvent, has_control: bool, has_alt: bool)
        -> (r: bool)
        requires
            old(self).wf(),
            has_control == key.modifiers.control,
            has_alt == key.modifiers.has_alt(),
        ensures
            final(self).wf(),
            final(self)@ == old(self)@.after_slash_key(*key),
            r == old(self)@.slash_takes_key(*key),
    {
        if !(self.input_enabled && self.slash_suggestions.len() > 0) || has_control || has_alt {
            return false;
        }
        match key.code {
            KeyCode::Up => self.move_slash_selection_up(),
            KeyCode::Down => self.move_slash_selection_down(),
            KeyCode::Tab => self.apply_selected_slash_suggestion(),
            KeyCode::BackTab => self.move_slash_selection_up(),
            _ => false,
        }
    }

    fn take_submission(&mut self) -> (r: String)
        requires
            old(self).wf(),
        ensures
            final(self).wf(),
            r@ == old(self)@.input,
            final(self)@ == (SessionV {
                needs_redraw: true,
                ..SessionV { input: Seq::empty(), cursor: 0, ..old(self)@ }.with_slash_updated()
            }),
    {
        let submitted = string_of(self.input.as_slice());
        self.input = Vec::new();
        self.cursor = 0;
        self.update_slash_suggestions();
        self.mark_dirty();
        submitted
    }

    fn process_char(&mut self, ch: char, has_control: bool, has_alt: bool, has_command: bool)
        requires
            old(self).wf(),
        ensures
            final(self).wf(),
            final(self)@ == old(self)@.after_char(
                ch,
                KeyModifiers {
                    control: has_control,
                    alt: has_alt,
                    meta: false,
                    command: has_command,
                    shift: false,
                },
            ),
    {
        if !self.input_enabled {
            return ;
        }
        if has_command {
            if ch == 'a' || ch == 'A' {
                self.move_to_start();
                self.mark_dirty();
            } else if ch == 'e' || ch == 'E' {
                self.move_to_end();
                self.mark_dirty();
            }
            return ;
        }
        if has_alt {
            if ch == 'b' || ch == 'B' {
                self.move_left_word();
                self.mark_dirty();
            } else if ch == 'f' || ch == 'F' {
                self.move_right_word();
                self.mark_dirty();
            }
            return ;
        }
        if !has_control {
            self.insert_char(ch);
            self.mark_dirty();
        }
    }

    fn process_arrow(&mut self, left: bool, has_alt: bool, has_command: bool)
        requires
            old(self).wf(),
        ensures
            final(self).wf(),
            final(self)@ == old(self)@.after_arrow(
                left,
                KeyModifiers {
                    control: false,
                    alt: has_alt,
                    meta: false,
                    command: has_command,
                    shift: false,
                },
            ),
    {
        if !self.input_enabled {
            return ;
        }
        if has_command {
            if left {
                self.move_to_start();
            } else {
                self.move_to_end();
            }
        } else if has_alt {
            if left {
                self.move_left_word();
            } else {
                self.move_right_word();
            }
        } else if left {
            self.move_left();
        } else {
            self.move_right();
        }
        self.mark_dirty();
    }

    fn process_scroll_key(&mut self, code: KeyCode)
        requires
            old(self).wf(),
            code == KeyCode::PageUp || code == KeyCode::PageDown || code == KeyCode::Up || code
                == KeyCode::Down,
        ensures
            final(self).wf(),
            final(self)@ == old(self)@.scrolled(code),
    {
        match code {
            KeyCode::PageUp => self.scroll_page_up(),
            KeyCode::PageDown => self.scroll_page_down(),
            KeyCode::Up => self.scroll_line_up(),
            _ => self.scroll_line_down(),
        }
        self.mark_dirty();
    }

    fn process_edit_key(&mut self, key: KeyEvent, has_alt: bool, has_command: bool)
        requires
            old(self).wf(),
            has_alt == key.modifiers.has_alt(),
            has_command == key.modifiers.has_command(),
            key.code == KeyCode::Backspace || key.code == KeyCode::Left || key.code
                == KeyCode::Right || key.code == KeyCode::Home || key.code == KeyCode::End,
        ensures
            final(self).wf(),
            final(self)@ == old(self)@.after_plain_key(key),
    {
        proof {
            lemma_modifiers_count(key.modifiers);
        }
        match key.code {
            KeyCode::Backspace => {
                if self.input_enabled {
                    self.delete_char();
                    self.mark_dirty();
                }
            },
            KeyCode::Left => {
                self.process_arrow(true, has_alt, has_command);
            },
            KeyCode::Right => {
                self.process_arrow(false, has_alt, has_command);
            },
            KeyCode::Home => {
                if self.input_enabled {
                    self.move_to_start();
                    self.mark_dirty();
                }
            },
            _ => {
                if self.input_enabled {
                    self.move_to_end();
                    self.mark_dirty();
                }
            },
        }
    }

    fn process_plain_key(&mut self, key: KeyEvent) -> (r: Option<
        crate::ui::tui::types::InlineEvent,
    >)
        requires
            old(self).wf(),
        ensures
            final(self).wf(),
            final(self)@ == old(self)@.after_plain_key(key),
            crate::ui::tui::types::opt_event_view(r) == old(self)@.event_for_plain_key(key),
    {
        let modifiers = key.modifiers;
        let has_control = modifiers.control;
        let has_alt = modifiers.alt || (!modifiers.command && modifiers.meta);
        let has_command = modifiers.command || (modifiers.meta && !has_alt);
        proof {
            lemma_modifiers_count(modifiers);
        }
        match key.code {
            KeyCode::Char(ch) => {
                if has_control && ch == 'c' {
                    self.mark_dirty();
                    Some(crate::ui::tui::types::InlineEvent::Interrupt)
                } else if has_control && ch == 'd' {
                    self.mark_dirty();
                    Some(crate::ui::tui::types::InlineEvent::Exit)
                } else {
                    self.process_char(ch, has_control, has_alt, has_command);
                    None
                }
            },
            KeyCode::Esc => {
                if self.modal.is_some() {
                    self.close_modal();
                    None
                } else {
                    self.mark_dirty();
                    Some(crate::ui::tui::types::InlineEvent::Cancel)
                }
            },
            KeyCode::PageUp => {
                self.process_scroll_key(key.code);
                Some(crate::ui::tui::types::InlineEvent::ScrollPageUp)
            },
            KeyCode::PageDown => {
                self.process_scroll_key(key.code);
                Some(crate::ui::tui::types::InlineEvent::ScrollPageDown)
            },
            KeyCode::Up => {
                self.process_scroll_key(key.code);
                Some(crate::ui::tui::types::InlineEvent::ScrollLineUp)
            },
            KeyCode::Down => {
                self.process_scroll_key(key.code);
                Some(crate::ui::tui::types::InlineEvent::ScrollLineDown)
            },
            KeyCode::Enter => {
                if self.input_enabled {
                    let submitted = self.take_submission();
                    Some(crate::ui::tui::types::InlineEvent::Submit(submitted))
                } else {
                    None
                }
            },
            KeyCode::Backspace => {
                self.process_edit_key(key, has_alt, has_command);
                None
            },
            KeyCode::Left => {
                self.process_edit_key(key, has_alt, has_command);
                None
            },
            KeyCode::Right => {
                self.process_edit_key(key, has_alt, has_command);
                None
            },
            KeyCode::Home => {
                self.process_edit_key(key, has_alt, has_command);
                None
            },
            KeyCode::End => {
                self.process_edit_key(key, has_alt, has_command);
                None
            },
            _ => None,
        }
    }

    /// Takes a key and says what it tells the owner of the session.
    pub fn process_key(&mut self, key: KeyEvent) -> (r: Option<crate::ui::tui::types::InlineEvent>)
        requires
            old(self).wf(),
        ensures
            final(self).wf(),
            final(self)@ == old(self)@.after_key(key),
            crate::ui::tui::types::opt_event_view(r) == old(self)@.event_for_key(key),
    {
        let modifiers = key.modifiers;
        let has_control = modifiers.control;
        let has_alt = modifiers.alt || (!modifiers.command && modifiers.meta);
        if self.try_handle_slash_navigation(&key, has_control, has_alt) {
            return None;
        }
        self.process_plain_key(key)
    }

    /// Takes a terminal event and says what it tells the owner of the
    /// session.
    pub fn handle_event(&mut self, event: TerminalEvent) -> (r: Option<
        crate::ui::tui::types::InlineEvent,
    >)
        requires
            old(self).wf(),
        ensures
            final(self).wf(),
            final(self)@ == old(self)@.after_event(event),
            crate::ui::tui::types::opt_event_view(r) == match event {
                TerminalEvent::Key(key) => if key.kind == KeyEventKind::Release {
                    None
                } else {
                    old(self)@.event_for_key(key)
                },
                _ => None,
            },
    {
        match event {
            TerminalEvent::Key(key) => {
                if key.kind == KeyEventKind::Release {
                    None
                } else {
                    self.process_key(key)
                }
            },
            TerminalEvent::Resize(_, rows) => {
                self.apply_view_rows(rows);
                self.mark_dirty();
                None
            },
            TerminalEvent::Other => None,
        }
    }
}

/// What counts of the modifiers is whether Control, Alt and the command
/// key are held; two sets of modifiers that agree on that do the same.
pub proof fn lemma_modifiers_count(m: KeyModifiers)
    ensures
        (KeyModifiers {
            control: m.control,
            alt: m.has_alt(),
            meta: false,
            command: m.has_command(),
            shift: false,
        }).has_alt() == m.has_alt(),
        (KeyModifiers {
            control: m.control,
            alt: m.has_alt(),
            meta: false,
            command: m.has_command(),
            shift: false,
        }).has_command() == m.has_command(),
        (KeyModifiers {
            control: false,
            alt: m.has_alt(),
            meta: false,
            command: m.has_command(),
            shift: false,
        }).has_alt() == m.has_alt(),
        (KeyModifiers {
            control: false,
            alt: m.has_alt(),
            meta: false,
            command: m.has_command(),
            shift: false,
        }).has_command() == m.has_command(),
{
}

impl SessionV {
    /// The session with a colour for its prompt: the accent colour of the
    /// theme where the prompt has none of its own.
    pub open spec fn with_prompt_color(self) -> SessionV {
        if self.prompt_style.color is None {
            SessionV {
                prompt_style: InlineTextStyle {
                    color: color_or(self.theme.primary, self.theme.foreground),
                    ..self.prompt_style
                },
                ..self
            }
        } else {
            self
        }
    }

    /// A new session: an empty transcript and an empty input that takes
    /// keys, a frame owed, at least two rows, of which the transcript gets
    /// what header and input leave.
    pub open spec fn fresh(
        theme: InlineTheme,
        placeholder: Option<Seq<char>>,
        view_rows: u16,
        show_timeline_pane: bool,
    ) -> SessionV {
        let rows: u16 = if view_rows < 2 {
            2
        } else {
            view_rows
        };
        let left = sat_sub16(rows, (INLINE_HEADER_HEIGHT + INLINE_INPUT_HEIGHT) as int);
        SessionV {
            lines: Seq::empty(),
            theme,
            header_context: InlineHeaderContextV::unknown(),
            header_rows: INLINE_HEADER_HEIGHT,
            labels: MessageLabelsV { agent: None, user: None },
            prompt_prefix: USER_PREFIX@,
            prompt_style: InlineTextStyle::plain(),
            placeholder,
            placeholder_style: None,
            input: Seq::empty(),
            cursor: 0,
            slash_suggestions: Seq::empty(),
            slash_selected: None,
            slash_offset: 0,
            slash_visible_rows: 0,
            input_enabled: true,
            cursor_visible: true,
            needs_redraw: true,
            should_exit: false,
            view_rows: rows,
            scroll_offset: 0,
            transcript_rows: if left < 1 {
                1
            } else {
                left
            },
            transcript_width: 0,
            modal: None,
            show_timeline_pane,
            line_revision_counter: 0,
        }.with_prompt_color()
    }

    /// The session after a command of its owner. Whatever the command, a
    /// frame is owed after it.
    #[verifier::opaque]
    pub open spec fn after_command(self, command: crate::ui::tui::types::InlineCommandV)
        -> SessionV {
        let done = match command {
            crate::ui::tui::types::InlineCommandV::AppendLine { kind, segments } => self.pushed(
                kind,
                segments,
            ),
            crate::ui::tui::types::InlineCommandV::Inline { kind, segment } => self.appended_inline(
                kind,
                segment,
            ),
            crate::ui::tui::types::InlineCommandV::ReplaceLast {
                count,
                kind,
                lines,
            } => self.replaced_last(count, kind, lines),
            crate::ui::tui::types::InlineCommandV::SetPrompt { prefix, style } => SessionV {
                prompt_prefix: prefix,
                prompt_style: style,
                ..self
            }.with_prompt_color(),
            crate::ui::tui::types::InlineCommandV::SetPlaceholder { hint, style } => SessionV {
                placeholder: hint,
                placeholder_style: style,
                ..self
            },
            crate::ui::tui::types::InlineCommandV::SetMessageLabels { agent, user } => SessionV {
                labels: MessageLabelsV {
                    agent: crate::ui::tui::types::nonempty_label(agent),
                    user: crate::ui::tui::types::nonempty_label(user),
                },
                ..self
            },
            crate::ui::tui::types::InlineCommandV::SetHeaderContext { context } => SessionV {
                header_context: context,
                needs_redraw: true,
                ..self
            },
            crate::ui::tui::types::InlineCommandV::SetTheme { theme } => SessionV {
                theme,
                ..self
            }.with_prompt_color(),
            crate::ui::tui::types::InlineCommandV::SetCursorVisible(value) => SessionV {
                cursor_visible: value,
                ..self
            },
            crate::ui::tui::types::InlineCommandV::SetInputEnabled(value) => SessionV {
                input_enabled: value,
                ..self
            }.with_slash_updated(),
            crate::ui::tui::types::InlineCommandV::SetInput(content) => SessionV {
                input: content,
                cursor: content.len() as int,
                ..self
            }.with_slash_updated(),
            crate::ui::tui::types::InlineCommandV::ClearInput => SessionV {
                needs_redraw: true,
                ..SessionV { input: Seq::empty(), cursor: 0, ..self }.with_slash_updated()
            },
            crate::ui::tui::types::InlineCommandV::ForceRedraw => SessionV {
                needs_redraw: true,
                ..self
            },
            crate::ui::tui::types::InlineCommandV::ShowModal { title, lines } => self.with_modal(
                title,
                lines,
            ),
            crate::ui::tui::types::InlineCommandV::CloseModal => self.without_modal(),
            crate::ui::tui::types::InlineCommandV::Shutdown => SessionV {
                should_exit: true,
                ..self
            },
        };
        SessionV { needs_redraw: true, ..done }
    }
}

impl Session {
    fn ensure_prompt_style_color(&mut self)
        requires
            old(self).wf(),
        ensures
            final(self).wf(),
            final(self)@ == old(self)@.with_prompt_color(),
    {
        if self.prompt_style.color.is_none() {
            self.prompt_style.color = first_color(self.theme.primary, self.theme.foreground);
        }
    }

    /// A new session.
    pub fn new(
        theme: InlineTheme,
        placeholder: Option<String>,
        view_rows: u16,
        show_timeline_pane: bool,
    ) -> (r: Session)
        ensures
            r.wf(),
            r@ == SessionV::fresh(theme, opt_text(placeholder), view_rows, show_timeline_pane),
    {
        let resolved_rows = if view_rows < 2 {
            2
        } else {
            view_rows
        };
        let reserved_rows = INLINE_HEADER_HEIGHT + INLINE_INPUT_HEIGHT;
        let left = sub16(resolved_rows, reserved_rows);
        let initial_transcript_rows = if left < 1 {
            1
        } else {
            left
        };
        let mut session = Session {
            lines: Vec::new(),
            theme,
            header_context: InlineHeaderContext::default(),
            header_rows: INLINE_HEADER_HEIGHT,
            labels: MessageLabels { agent: None, user: None },
            prompt_prefix: USER_PREFIX.to_owned(),
            prompt_style: InlineTextStyle { color: None, bold: false, italic: false },
            placeholder,
            placeholder_style: None,
            input: Vec::new(),
            cursor: 0,
            slash_suggestions: Vec::new(),
            slash_selected: None,
            slash_offset: 0,
            slash_visible_rows: 0,
            input_enabled: true,
            cursor_visible: true,
            needs_redraw: true,
            should_exit: false,
            view_rows: resolved_rows,
            scroll_offset: 0,
            transcript_rows: initial_transcript_rows,
            transcript_width: 0,
            cached_max_scroll_offset: 0,
            scroll_metrics_dirty: true,
            transcript_cache: None,
            modal: None,
            show_timeline_pane,
            line_revision_counter: 0,
        };
        assert(session@.lines =~= Seq::empty());
        assert(session@.input =~= Seq::empty());
        assert(session@.slash_suggestions =~= Seq::empty());
        session.ensure_prompt_style_color();
        session
    }

    fn set_labels(&mut self, agent: Option<String>, user: Option<String>)
        requires
            old(self).wf(),
        ensures
            final(self).wf(),
            final(self)@ == (SessionV {
                labels: MessageLabelsV {
                    agent: crate::ui::tui::types::nonempty_label(opt_text(agent)),
                    user: crate::ui::tui::types::nonempty_label(opt_text(user)),
                },
                ..old(self)@
            }),
    {
        self.labels = MessageLabels {
            agent: crate::ui::tui::types::filter_label(agent),
            user: crate::ui::tui::types::filter_label(user),
        };
        self.invalidate_scroll_metrics();
    }

    fn set_theme(&mut self, theme: InlineTheme)
        requires
            old(self).wf(),
        ensures
            final(self).wf(),
            final(self)@ == (SessionV { theme, ..old(self)@ }).with_prompt_color(),
    {
        self.theme = theme;
        self.invalidate_scroll_metrics();
        self.ensure_prompt_style_color();
    }

    fn set_prompt(&mut self, prefix: String, style: InlineTextStyle)
        requires
            old(self).wf(),
        ensures
            final(self).wf(),
            final(self)@ == (SessionV {
                prompt_prefix: prefix@,
                prompt_style: style,
                ..old(self)@
            }).with_prompt_color(),
    {
        self.prompt_prefix = prefix;
        self.prompt_style = style;
        self.ensure_prompt_style_color();
    }

    fn set_input_enabled(&mut self, value: bool)
        requires
            old(self).wf(),
        ensures
            final(self).wf(),
            final(self)@ == (SessionV { input_enabled: value, ..old(self)@ }).with_slash_updated(),
    {
        self.input_enabled = value;
        self.update_slash_suggestions();
    }

    fn command_append(&mut self, kind: InlineMessageKind, segments: Vec<InlineSegment>)
        requires
            old(self).wf(),
        ensures
            final(self).wf(),
            final(self)@ == old(self)@.after_command(
                crate::ui::tui::types::InlineCommandV::AppendLine {
                    kind,
                    segments: segment_views(segments@),
                },
            ),
    {
        reveal(SessionV::after_command);
        self.push_line(kind, segments);
        self.mark_dirty();
    }

    fn command_inline(&mut self, kind: InlineMessageKind, segment: InlineSegment)
        requires
            old(self).wf(),
        ensures
            final(self).wf(),
            final(self)@ == old(self)@.after_command(
                crate::ui::tui::types::InlineCommandV::Inline { kind, segment: segment@ },
            ),
    {
        reveal(SessionV::after_command);
        self.append_inline(kind, segment);
        self.mark_dirty();
    }

    fn command_replace(&mut self, count: usize, kind: InlineMessageKind, lines: Vec<Vec<InlineSegment>>)
        requires
            old(self).wf(),
        ensures
            final(self).wf(),
            final(self)@ == old(self)@.after_command(
                crate::ui::tui::types::InlineCommandV::ReplaceLast {
                    count,
                    kind,
                    lines: segment_list_views(lines@),
                },
            ),
    {
        reveal(SessionV::after_command);
        self.replace_last(count, kind, lines);
        self.mark_dirty();
    }

    fn command_prompt(&mut self, prefix: String, style: InlineTextStyle)
        requires
            old(self).wf(),
        ensures
            final(self).wf(),
            final(self)@ == old(self)@.after_command(
                crate::ui::tui::types::InlineCommandV::SetPrompt { prefix: prefix@, style },
            ),
    {
        reveal(SessionV::after_command);
        self.set_prompt(prefix, style);
        self.mark_dirty();
    }

    fn command_placeholder(&mut self, hint: Option<String>, style: Option<InlineTextStyle>)
        requires
            old(self).wf(),
        ensures
            final(self).wf(),
            final(self)@ == old(self)@.after_command(
                crate::ui::tui::types::InlineCommandV::SetPlaceholder {
                    hint: opt_text(hint),
                    style,
                },
            ),
    {
        reveal(SessionV::after_command);
        self.placeholder = hint;
        self.placeholder_style = style;
        self.mark_dirty();
    }

    fn command_labels(&mut self, agent: Option<String>, user: Option<String>)
        requires
            old(self).wf(),
        ensures
            final(self).wf(),
            final(self)@ == old(self)@.after_command(
                crate::ui::tui::types::InlineCommandV::SetMessageLabels {
                    agent: opt_text(agent),
                    user: opt_text(user),
                },
            ),
    {
        reveal(SessionV::after_command);
        self.set_labels(agent, user);
        self.mark_dirty();
    }

    fn command_header(&mut self, context: InlineHeaderContext)
        requires
            old(self).wf(),
        ensures
            final(self).wf(),
            final(self)@ == old(self)@.after_command(
                crate::ui::tui::types::InlineCommandV::SetHeaderContext { context: context@ },
            ),
    {
        reveal(SessionV::after_command);
        self.header_context = context;
        self.needs_redraw = true;
    }

    fn command_theme(&mut self, theme: InlineTheme)
        requires
            old(self).wf(),
        ensures
            final(self).wf(),
            final(self)@ == old(self)@.after_command(
                crate::ui::tui::types::InlineCommandV::SetTheme { theme },
            ),
    {
        reveal(SessionV::after_command);
        self.set_theme(theme);
        self.mark_dirty();
    }

    fn command_cursor_visible(&mut self, value: bool)
        requires
            old(self).wf(),
        ensures
            final(self).wf(),
            final(self)@ == old(self)@.after_command(
                crate::ui::tui::types::InlineCommandV::SetCursorVisible(value),
            ),
    {
        reveal(SessionV::after_command);
        self.cursor_visible = value;
        self.mark_dirty();
    }

    fn command_input_enabled(&mut self, value: bool)
        requires
            old(self).wf(),
        ensures
            final(self).wf(),
            final(self)@ == old(self)@.after_command(
                crate::ui::tui::types::InlineCommandV::SetInputEnabled(value),
            ),
    {
        reveal(SessionV::after_command);
        self.set_input_enabled(value);
        self.mark_dirty();
    }

    fn command_set_input(&mut self, content: String)
        requires
            old(self).wf(),
        ensures
            final(self).wf(),
            final(self)@ == old(self)@.after_command(
                crate::ui::tui::types::InlineCommandV::SetInput(content@),
            ),
    {
        reveal(SessionV::after_command);
        self.set_input(content.as_str());
        self.mark_dirty();
    }

    fn command_clear_input(&mut self)
        requires
            old(self).wf(),
        ensures
            final(self).wf(),
            final(self)@ == old(self)@.after_command(
                crate::ui::tui::types::InlineCommandV::ClearInput,
            ),
    {
        reveal(SessionV::after_command);
        self.clear_input();
        self.mark_dirty();
    }

    fn command_redraw(&mut self)
        requires
            old(self).wf(),
        ensures
            final(self).wf(),
            final(self)@ == old(self)@.after_command(
                crate::ui::tui::types::InlineCommandV::ForceRedraw,
            ),
    {
        reveal(SessionV::after_command);
        self.mark_dirty();
    }

    fn command_show_modal(&mut self, title: String, lines: Vec<String>)
        requires
            old(self).wf(),
        ensures
            final(self).wf(),
            final(self)@ == old(self)@.after_command(
                crate::ui::tui::types::InlineCommandV::ShowModal {
                    title: title@,
                    lines: text_views(lines@),
                },
            ),
    {
        reveal(SessionV::after_command);
        self.show_modal(title, lines);
        self.mark_dirty();
    }

    fn command_close_modal(&mut self)
        requires
            old(self).wf(),
        ensures
            final(self).wf(),
            final(self)@ == old(self)@.after_command(
                crate::ui::tui::types::InlineCommandV::CloseModal,
            ),
    {
        reveal(SessionV::after_command);
        self.close_modal();
        self.mark_dirty();
    }

    fn command_shutdown(&mut self)
        requires
            old(self).wf(),
        ensures
            final(self).wf(),
            final(self)@ == old(self)@.after_command(
                crate::ui::tui::types::InlineCommandV::Shutdown,
            ),
    {
        reveal(SessionV::after_command);
        self.request_exit();
        self.mark_dirty();
    }

    /// Takes a command of the owner.
    pub fn handle_command(&mut self, command: crate::ui::tui::types::InlineCommand)
        requires
            old(self).wf(),
        ensures
            final(self).wf(),
            final(self)@ == old(self)@.after_command(command@),
    {
        match command {
            crate::ui::tui::types::InlineCommand::AppendLine { kind, segments } => {
                self.command_append(kind, segments);
            },
            crate::ui::tui::types::InlineCommand::Inline { kind, segment } => {
                self.command_inline(kind, segment);
            },
            crate::ui::tui::types::InlineCommand::ReplaceLast { count, kind, lines } => {
                assert(segment_list_views(lines@) =~= command@->ReplaceLast_lines);
                self.command_replace(count, kind, lines);
            },
            crate::ui::tui::types::InlineCommand::SetPrompt { prefix, style } => {
                self.command_prompt(prefix, style);
            },
            crate::ui::tui::types::InlineCommand::SetPlaceholder { hint, style } => {
                self.command_placeholder(hint, style);
            },
            crate::ui::tui::types::InlineCommand::SetMessageLabels { agent, user } => {
                self.command_labels(agent, user);
            },
            crate::ui::tui::types::InlineCommand::SetHeaderContext { context } => {
                self.command_header(context);
            },
            crate::ui::tui::types::InlineCommand::SetTheme { theme } => {
                self.command_theme(theme);
            },
            crate::ui::tui::types::InlineCommand::SetCursorVisible(value) => {
                self.command_cursor_visible(value);
            },
            crate::ui::tui::types::InlineCommand::SetInputEnabled(value) => {
                self.command_input_enabled(value);
            },
            crate::ui::tui::types::InlineCommand::SetInput(content) => {
                self.command_set_input(content);
            },
            crate::ui::tui::types::InlineCommand::ClearInput => {
                self.command_clear_input();
            },
            crate::ui::tui::types::InlineCommand::ForceRedraw => {
                self.command_redraw();
            },
            crate::ui::tui::types::InlineCommand::ShowModal { title, lines } => {
                self.command_show_modal(title, lines);
            },
            crate::ui::tui::types::InlineCommand::CloseModal => {
                self.command_close_modal();
            },
            crate::ui::tui::types::InlineCommand::Shutdown => {
                self.command_shutdown();
            },
        }
    }
}

/// The style of plain text in a theme.
pub open spec fn default_style_of(theme: InlineTheme) -> SpanStyle {
    SpanStyle { fg: theme.foreground, ..SpanStyle::plain() }
}

/// The style of the main entries of the header.
pub open spec fn header_primary_style_of(theme: InlineTheme) -> SpanStyle {
    SpanStyle { fg: color_or(color_or(theme.primary, theme.foreground), theme.foreground), ..SpanStyle::plain() }
}

/// The style of the lesser entries of the header.
pub open spec fn header_secondary_style_of(theme: InlineTheme) -> SpanStyle {
    SpanStyle {
        fg: color_or(color_or(theme.secondary, theme.foreground), theme.foreground),
        ..SpanStyle::plain()
    }
}

/// The style of the titles of sections.
pub open spec fn section_title_style_of(theme: InlineTheme) -> SpanStyle {
    SpanStyle { bold: true, ..header_primary_style_of(theme) }
}

/// A header entry: the value given, or the fallback where that is blank.
pub open spec fn header_value(value: Seq<char>, fallback: Seq<char>) -> Seq<char> {
    if crate::text::is_blank(value) {
        fallback
    } else {
        value
    }
}

/// The entries of a row from index `i` on, added to `acc`: blank entries
/// are left out, and a separator stands between two entries.
pub open spec fn chained_from(
    entries: Seq<(Seq<char>, SpanStyle)>,
    i: int,
    separator: StyledSpanV,
    acc: Seq<StyledSpanV>,
) -> Seq<StyledSpanV>
    decreases entries.len() - i,
{
    if 0 <= i < entries.len() {
        if crate::text::is_blank(entries[i].0) {
            chained_from(entries, i + 1, separator, acc)
        } else if acc.len() > 0 {
            chained_from(
                entries,
                i + 1,
                separator,
                acc.push(separator).push(StyledSpanV { text: entries[i].0, style: entries[i].1 }),
            )
        } else {
            chained_from(
                entries,
                i + 1,
                separator,
                acc.push(StyledSpanV { text: entries[i].0, style: entries[i].1 }),
            )
        }
    } else {
        acc
    }
}

/// A row that is never without a span.
pub open spec fn never_empty(row: Seq<StyledSpanV>) -> Seq<StyledSpanV> {
    if row.len() == 0 {
        seq![raw_span(Seq::empty())]
    } else {
        row
    }
}

impl SessionV {
    /// The first line of the header: provider, model and reasoning, each
    /// given or by default, the provider in bold.
    pub open spec fn header_title_row(self) -> Seq<StyledSpanV> {
        let unknown = InlineHeaderContextV::unknown();
        let primary = header_primary_style_of(self.theme);
        never_empty(
            chained_from(
                seq![
                    (
                        header_value(self.header_context.provider, unknown.provider),
                        SpanStyle { bold: true, ..primary },
                    ),
                    (header_value(self.header_context.model, unknown.model), primary),
                    (header_value(self.header_context.reasoning, unknown.reasoning), primary),
                ],
                0,
                StyledSpanV {
                    text: crate::config::constants::HEADER_MODE_PRIMARY_SEPARATOR@,
                    style: header_secondary_style_of(self.theme),
                },
                Seq::empty(),
            ),
        )
    }

    /// The word for whether the session takes input.
    pub open spec fn header_status(self) -> Seq<char> {
        if self.input_enabled {
            crate::config::constants::HEADER_STATUS_ACTIVE@
        } else {
            crate::config::constants::HEADER_STATUS_PAUSED@
        }
    }

    /// The word for whether the input is on.
    pub open spec fn header_input(self) -> Seq<char> {
        if self.input_enabled {
            crate::config::constants::HEADER_INPUT_ENABLED@
        } else {
            crate::config::constants::HEADER_INPUT_DISABLED@
        }
    }

    /// The mode, the trust, the tools, the languages and the external
    /// tools of the header, each given or by default, the mode in bold.
    pub open spec fn header_chain_row(self) -> Seq<StyledSpanV> {
        let unknown = InlineHeaderContextV::unknown();
        let primary = header_primary_style_of(self.theme);
        chained_from(
            seq![
                (
                    header_value(self.header_context.mode, unknown.mode),
                    SpanStyle { bold: true, ..primary },
                ),
                (
                    header_value(self.header_context.workspace_trust, unknown.workspace_trust),
                    primary,
                ),
                (header_value(self.header_context.tools, unknown.tools), primary),
                (header_value(self.header_context.languages, unknown.languages), primary),
                (header_value(self.header_context.mcp, unknown.mcp), primary),
            ],
            0,
            StyledSpanV {
                text: crate::config::constants::HEADER_MODE_SECONDARY_SEPARATOR@,
                style: header_secondary_style_of(self.theme),
            },
            Seq::empty(),
        )
    }

    /// An entry of the status part of the header: its label and its
    /// value.
    pub open spec fn meta_entry(self, label: Seq<char>, value: Seq<char>) -> Seq<StyledSpanV> {
        seq![
            StyledSpanV {
                text: label + ": "@,
                style: SpanStyle { bold: true, ..header_secondary_style_of(self.theme) },
            },
            StyledSpanV { text: value, style: header_primary_style_of(self.theme) },
        ]
    }

    /// The second line of the header: mode, trust, tools, languages and
    /// external tools, then the status, the number of messages and the
    /// state of the input.
    pub open spec fn header_meta_row(self) -> Seq<StyledSpanV> {
        let chain = self.header_chain_row();
        let lead = if chain.len() > 0 {
            chain.push(
                StyledSpanV {
                    text: crate::config::constants::HEADER_MODE_SECONDARY_SEPARATOR@,
                    style: header_secondary_style_of(self.theme),
                },
            )
        } else {
            chain
        };
        let gap = raw_span(crate::config::constants::HEADER_META_SEPARATOR@);
        lead + self.meta_entry(crate::config::constants::HEADER_STATUS_LABEL@, self.header_status())
            + seq![gap] + self.meta_entry(
            crate::config::constants::HEADER_MESSAGES_LABEL@,
            crate::text::decimal_spec(self.lines.len()),
        ) + seq![gap] + self.meta_entry(
            crate::config::constants::HEADER_INPUT_LABEL@,
            self.header_input(),
        )
    }

    /// The title of the frame of the header: the name of the program and
    /// its version.
    pub open spec fn header_title(self) -> Seq<StyledSpanV> {
        let version = header_value(
            self.header_context.version,
            InlineHeaderContextV::unknown().version,
        );
        seq![
            StyledSpanV {
                text: crate::config::constants::HEADER_VERSION_PROMPT@
                    + crate::config::constants::HEADER_VERSION_PREFIX@ + " "@,
                style: section_title_style_of(self.theme),
            },
            StyledSpanV {
                text: crate::config::constants::HEADER_VERSION_LEFT_DELIMITER@
                    + crate::text::trim_spec(version)
                    + crate::config::constants::HEADER_VERSION_RIGHT_DELIMITER@,
                style: SpanStyle { dim: true, ..header_secondary_style_of(self.theme) },
            },
        ]
    }

    /// The rows the header takes for a measured number of rows: what was
    /// measured, as far as it can be counted, and at least the least
    /// height of a header.
    pub open spec fn header_height_for(measured: usize) -> u16 {
        if measured > u16::MAX {
            u16::MAX
        } else if measured < INLINE_HEADER_HEIGHT {
            INLINE_HEADER_HEIGHT
        } else {
            measured as u16
        }
    }

    /// The session after the header was measured.
    pub open spec fn with_header_rows(self, rows: u16) -> SessionV {
        if rows != self.header_rows {
            SessionV { header_rows: rows, ..self }.with_transcript_rows_recalculated()
        } else {
            self
        }
    }
}

fn pick_header_value(value: &str, fallback: &str) -> (r: String)
    ensures
        r@ == header_value(value@, fallback@),
{
    if crate::text::str_is_blank(value) {
        fallback.to_owned()
    } else {
        value.to_owned()
    }
}

fn chain_entry(spans: &mut Vec<StyledSpan>, text: String, style: SpanStyle, separator: &StyledSpan)
    ensures
        span_views(final(spans)@) == if crate::text::is_blank(text@) {
            span_views(old(spans)@)
        } else if old(spans)@.len() > 0 {
            span_views(old(spans)@).push(separator@).push(StyledSpanV { text: text@, style })
        } else {
            span_views(old(spans)@).push(StyledSpanV { text: text@, style })
        },
{
    if crate::text::str_is_blank(text.as_str()) {
        return ;
    }
    let ghost before = span_views(spans@);
    if spans.len() > 0 {
        spans.push(separator.duplicate());
        assert(span_views(spans@) =~= before.push(separator@));
    }
    let ghost mid = span_views(spans@);
    let span = StyledSpan { text, style };
    spans.push(span);
    assert(span_views(spans@) =~= mid.push(span@));
}

fn blank_row_if_empty(spans: Vec<StyledSpan>) -> (r: Vec<StyledSpan>)
    ensures
        span_views(r@) == never_empty(span_views(spans@)),
{
    let mut spans = spans;
    if spans.len() == 0 {
        let blank = StyledSpan::raw(String::new());
        spans.push(blank);
        assert(span_views(spans@) =~= seq![blank@]);
    }
    spans
}

/// The style of plain text in a theme.
pub fn default_style(theme: &InlineTheme) -> (r: SpanStyle)
    ensures
        r == default_style_of(*theme),
{
    SpanStyle::new().with_fg(theme.foreground)
}

/// The style of the main entries of the header.
pub fn header_primary_style(theme: &InlineTheme) -> (r: SpanStyle)
    ensures
        r == header_primary_style_of(*theme),
{
    default_style(theme).with_fg(first_color(theme.primary, theme.foreground))
}

/// The style of the lesser entries of the header.
pub fn header_secondary_style(theme: &InlineTheme) -> (r: SpanStyle)
    ensures
        r == header_secondary_style_of(*theme),
{
    default_style(theme).with_fg(first_color(theme.secondary, theme.foreground))
}

/// The style of the titles of sections.
pub fn section_title_style(theme: &InlineTheme) -> (r: SpanStyle)
    ensures
        r == section_title_style_of(*theme),
{
    header_primary_style(theme).with_bold()
}

impl Session {
    /// The first line of the header.
    pub fn header_title_line(&self) -> (r: Vec<StyledSpan>)
        ensures
            span_views(r@) == self@.header_title_row(),
    {
        let unknown = InlineHeaderContext::default();
        let primary = header_primary_style(&self.theme);
        let separator = StyledSpan {
            text: crate::config::constants::HEADER_MODE_PRIMARY_SEPARATOR.to_owned(),
            style: header_secondary_style(&self.theme),
        };
        let mut spans: Vec<StyledSpan> = Vec::new();
        assert(span_views(spans@) =~= Seq::empty());
        let ghost entries = seq![
            (
                header_value(self@.header_context.provider, unknown@.provider),
                SpanStyle { bold: true, ..primary },
            ),
            (header_value(self@.header_context.model, unknown@.model), primary),
            (header_value(self@.header_context.reasoning, unknown@.reasoning), primary),
        ];
        chain_entry(
            &mut spans,
            pick_header_value(self.header_context.provider.as_str(), unknown.provider.as_str()),
            primary.with_bold(),
            &separator,
        );
        assert(chained_from(entries, 1, separator@, span_views(spans@)) == chained_from(
            entries,
            0,
            separator@,
            Seq::empty(),
        ));
        chain_entry(
            &mut spans,
            pick_header_value(self.header_context.model.as_str(), unknown.model.as_str()),
            primary,
            &separator,
        );
        assert(chained_from(entries, 2, separator@, span_views(spans@)) == chained_from(
            entries,
            0,
            separator@,
            Seq::empty(),
        ));
        chain_entry(
            &mut spans,
            pick_header_value(self.header_context.reasoning.as_str(), unknown.reasoning.as_str()),
            primary,
            &separator,
        );
        assert(chained_from(entries, 3, separator@, span_views(spans@)) == chained_from(
            entries,
            0,
            separator@,
            Seq::empty(),
        ));
        blank_row_if_empty(spans)
    }

    fn header_chain_line(&self) -> (r: Vec<StyledSpan>)
        ensures
            span_views(r@) == self@.header_chain_row(),
    {
        let unknown = InlineHeaderContext::default();
        let primary = header_primary_style(&self.theme);
        let separator = StyledSpan {
            text: crate::config::constants::HEADER_MODE_SECONDARY_SEPARATOR.to_owned(),
            style: header_secondary_style(&self.theme),
        };
        let mut spans: Vec<StyledSpan> = Vec::new();
        assert(span_views(spans@) =~= Seq::empty());
        let ghost entries = seq![
            (
                header_value(self@.header_context.mode, unknown@.mode),
                SpanStyle { bold: true, ..primary },
            ),
            (header_value(self@.header_context.workspace_trust, unknown@.workspace_trust), primary),
            (header_value(self@.header_context.tools, unknown@.tools), primary),
            (header_value(self@.header_context.languages, unknown@.languages), primary),
            (header_value(self@.header_context.mcp, unknown@.mcp), primary),
        ];
        let ghost goal = chained_from(entries, 0, separator@, Seq::empty());
        chain_entry(
            &mut spans,
            pick_header_value(self.header_context.mode.as_str(), unknown.mode.as_str()),
            primary.with_bold(),
            &separator,
        );
        assert(chained_from(entries, 1, separator@, span_views(spans@)) == goal);
        chain_entry(
            &mut spans,
            pick_header_value(
                self.header_context.workspace_trust.as_str(),
                unknown.workspace_trust.as_str(),
            ),
            primary,
            &separator,
        );
        assert(chained_from(entries, 2, separator@, span_views(spans@)) == goal);
        chain_entry(
            &mut spans,
            pick_header_value(self.header_context.tools.as_str(), unknown.tools.as_str()),
            primary,
            &separator,
        );
        assert(chained_from(entries, 3, separator@, span_views(spans@)) == goal);
        chain_entry(
            &mut spans,
            pick_header_value(self.header_context.languages.as_str(), unknown.languages.as_str()),
            primary,
            &separator,
        );
        assert(chained_from(entries, 4, separator@, span_views(spans@)) == goal);
        chain_entry(
            &mut spans,
            pick_header_value(self.header_context.mcp.as_str(), unknown.mcp.as_str()),
            primary,
            &separator,
        );
        assert(chained_from(entries, 5, separator@, span_views(spans@)) == goal);
        spans
    }

    fn push_meta_entry(&self, spans: &mut Vec<StyledSpan>, label: &str, value: String)
        ensures
            span_views(final(spans)@) == span_views(old(spans)@) + self@.meta_entry(
                label@,
                value@,
            ),
    {
        let ghost before = span_views(spans@);
        let name = StyledSpan {
            text: crate::text::concat(label, ": "),
            style: header_secondary_style(&self.theme).with_bold(),
        };
        let shown = StyledSpan { text: value, style: header_primary_style(&self.theme) };
        spans.push(name);
        spans.push(shown);
        assert(span_views(spans@) =~= before + self@.meta_entry(label@, value@));
    }

    /// The second line of the header.
    pub fn header_meta_line(&self) -> (r: Vec<StyledSpan>)
        ensures
            span_views(r@) == self@.header_meta_row(),
    {
        let mut spans = self.header_chain_line();
        if spans.len() > 0 {
            let ghost before = span_views(spans@);
            let separator = StyledSpan {
                text: crate::config::constants::HEADER_MODE_SECONDARY_SEPARATOR.to_owned(),
                style: header_secondary_style(&self.theme),
            };
            spans.push(separator);
            assert(span_views(spans@) =~= before.push(separator@));
        }
        let status = if self.input_enabled {
            crate::config::constants::HEADER_STATUS_ACTIVE
        } else {
            crate::config::constants::HEADER_STATUS_PAUSED
        };
        let input = if self.input_enabled {
            crate::config::constants::HEADER_INPUT_ENABLED
        } else {
            crate::config::constants::HEADER_INPUT_DISABLED
        };
        self.push_meta_entry(&mut spans, crate::config::constants::HEADER_STATUS_LABEL, status.to_owned());
        let ghost first = span_views(spans@);
        let gap = StyledSpan::raw(crate::config::constants::HEADER_META_SEPARATOR.to_owned());
        spans.push(gap);
        assert(span_views(spans@) =~= first + seq![gap@]);
        self.push_meta_entry(
            &mut spans,
            crate::config::constants::HEADER_MESSAGES_LABEL,
            crate::text::decimal(self.lines.len() as u64),
        );
        let ghost second = span_views(spans@);
        let gap = StyledSpan::raw(crate::config::constants::HEADER_META_SEPARATOR.to_owned());
        spans.push(gap);
        assert(span_views(spans@) =~= second + seq![gap@]);
        self.push_meta_entry(&mut spans, crate::config::constants::HEADER_INPUT_LABEL, input.to_owned());
        spans
    }

    /// The two lines of the header.
    pub fn header_lines(&self) -> (r: Vec<Vec<StyledSpan>>)
        ensures
            row_views(r@) == seq![self@.header_title_row(), self@.header_meta_row()],
    {
        let mut rows: Vec<Vec<StyledSpan>> = Vec::new();
        rows.push(self.header_title_line());
        rows.push(self.header_meta_line());
        assert(row_views(rows@) =~= seq![self@.header_title_row(), self@.header_meta_row()]);
        rows
    }

    /// The title of the frame of the header.
    pub fn header_block_title(&self) -> (r: Vec<StyledSpan>)
        ensures
            span_views(r@) == self@.header_title(),
    {
        let unknown = InlineHeaderContext::default();
        let version = pick_header_value(
            self.header_context.version.as_str(),
            unknown.version.as_str(),
        );
        let mut prompt = crate::text::concat(
            crate::config::constants::HEADER_VERSION_PROMPT,
            crate::config::constants::HEADER_VERSION_PREFIX,
        );
        prompt.append(" ");
        let mut version_text = crate::config::constants::HEADER_VERSION_LEFT_DELIMITER.to_owned();
        version_text.append(crate::text::str_trim(version.as_str()).as_str());
        version_text.append(crate::config::constants::HEADER_VERSION_RIGHT_DELIMITER);
        let mut spans: Vec<StyledSpan> = Vec::new();
        spans.push(StyledSpan { text: prompt, style: section_title_style(&self.theme) });
        spans.push(
            StyledSpan {
                text: version_text,
                style: header_secondary_style(&self.theme).with_dim(),
            },
        );
        assert(span_views(spans@) =~= self@.header_title());
        spans
    }

    /// The rows the header takes, given the rows its two lines take when
    /// wrapped within its frame.
    pub fn header_height_from_lines(&self, width: u16, measured: usize) -> (r: u16)
        ensures
            r == if width == 0 {
                if self@.header_rows < INLINE_HEADER_HEIGHT {
                    INLINE_HEADER_HEIGHT
                } else {
                    self@.header_rows
                }
            } else {
                SessionV::header_height_for(measured)
            },
    {
        if width == 0 {
            return if self.header_rows < INLINE_HEADER_HEIGHT {
                INLINE_HEADER_HEIGHT
            } else {
                self.header_rows
            };
        }
        if measured > u16::MAX as usize {
            u16::MAX
        } else if measured < INLINE_HEADER_HEIGHT as usize {
            INLINE_HEADER_HEIGHT
        } else {
            measured as u16
        }
    }

    /// Takes the rows the header was found to take.
    pub fn set_header_rows(&mut self, rows: u16)
        requires
            old(self).wf(),
        ensures
            final(self).wf(),
            final(self)@ == old(self)@.with_header_rows(rows),
    {
        if rows != self.header_rows {
            self.header_rows = rows;
            self.invalidate_scroll_metrics();
            self.recalculate_transcript_rows();
        }
    }
}

/// A rectangle of terminal cells.
#[derive(Clone, Copy, Debug, PartialEq, Eq, Structural)]
pub struct Rect {
    pub x: u16,
    pub y: u16,
    pub width: u16,
    pub height: u16,
}

/// Where the navigation pane goes.
#[derive(Clone, Copy, Debug, PartialEq, Eq, Structural)]
pub enum NavigationPlacement {
    /// No pane.
    Hidden,
    /// Beside the transcript, so many columns wide.
    Beside { nav_width: u16 },
    /// Below the transcript; the two share the height in these percents.
    Below { transcript_percent: u16, nav_percent: u16 },
}

/// The smaller of two 16-bit numbers.
pub open spec fn min16(a: u16, b: u16) -> u16 {
    if a <= b {
        a
    } else {
        b
    }
}

/// The larger of two 16-bit numbers.
pub open spec fn max16(a: u16, b: u16) -> u16 {
    if a >= b {
        a
    } else {
        b
    }
}

/// Where the navigation pane goes for a main area of a width: beside the
/// transcript where there is room for both, with its share of the width
/// but at least its least width and never into the least width of the
/// transcript; below it otherwise; nowhere where the timeline is off.
pub open spec fn navigation_placement(show: bool, available_width: u16) -> NavigationPlacement {
    if !show {
        NavigationPlacement::Hidden
    } else if available_width >= crate::config::constants::INLINE_CONTENT_MIN_WIDTH
        + crate::config::constants::INLINE_NAVIGATION_MIN_WIDTH {
        let share = ((available_width as int * crate::config::constants::INLINE_NAVIGATION_PERCENT)
            / 100) as u16;
        NavigationPlacement::Beside {
            nav_width: min16(
                max16(share, crate::config::constants::INLINE_NAVIGATION_MIN_WIDTH),
                sat_sub16(
                    available_width,
                    crate::config::constants::INLINE_CONTENT_MIN_WIDTH as int,
                ),
            ),
        }
    } else {
        let nav = min16(crate::config::constants::INLINE_STACKED_NAVIGATION_PERCENT, 99);
        NavigationPlacement::Below {
            transcript_percent: max16(sat_sub16(100, nav as int), 1),
            nav_percent: max16(nav, 1),
        }
    }
}

/// The area of a modal within a viewport: as wide as its content and six
/// columns, within the viewport less two; as high as its lines and four
/// rows, within the viewport; neither below the least size; centred.
pub open spec fn modal_rect(viewport: Rect, content_width: u16, line_count: usize) -> Rect {
    let min_width = min16(20, viewport.width);
    let min_height = min16(5, viewport.height);
    let width = max16(
        min16(sat_add16(content_width, 6), max16(sat_sub16(viewport.width, 2), min_width)),
        min_width,
    );
    let lines: u16 = if line_count > u16::MAX {
        u16::MAX
    } else {
        line_count as u16
    };
    let height = max16(min16(sat_add16(lines, 4), viewport.height), min_height);
    Rect {
        x: sat_add16(viewport.x, (sat_sub16(viewport.width, width as int) / 2) as int),
        y: sat_add16(viewport.y, (sat_sub16(viewport.height, height as int) / 2) as int),
        width,
        height,
    }
}

fn lesser16(a: u16, b: u16) -> (r: u16)
    ensures
        r == min16(a, b),
{
    if a <= b {
        a
    } else {
        b
    }
}

fn greater16(a: u16, b: u16) -> (r: u16)
    ensures
        r == max16(a, b),
{
    if a >= b {
        a
    } else {
        b
    }
}

/// Where the navigation pane goes for a main area of a width.
pub fn place_navigation(show: bool, available_width: u16) -> (r: NavigationPlacement)
    ensures
        r == navigation_placement(show, available_width),
{
    if !show {
        return NavigationPlacement::Hidden;
    }
    if available_width >= crate::config::constants::INLINE_CONTENT_MIN_WIDTH
        + crate::config::constants::INLINE_NAVIGATION_MIN_WIDTH {
        let scaled: u32 = (available_width as u32) * (
        crate::config::constants::INLINE_NAVIGATION_PERCENT as u32);
        let share = (scaled / 100) as u16;
        let nav_width = lesser16(
            greater16(share, crate::config::constants::INLINE_NAVIGATION_MIN_WIDTH),
            sub16(available_width, crate::config::constants::INLINE_CONTENT_MIN_WIDTH),
        );
        NavigationPlacement::Beside { nav_width }
    } else {
        let nav = lesser16(crate::config::constants::INLINE_STACKED_NAVIGATION_PERCENT, 99);
        NavigationPlacement::Below {
            transcript_percent: greater16(sub16(100, nav), 1),
            nav_percent: greater16(nav, 1),
        }
    }
}

/// The area of a modal within a viewport.
pub fn modal_area(viewport: Rect, content_width: u16, line_count: usize) -> (r: Rect)
    ensures
        r == modal_rect(viewport, content_width, line_count),
{
    let min_width = lesser16(20, viewport.width);
    let min_height = lesser16(5, viewport.height);
    let width = greater16(
        lesser16(add16(content_width, 6), greater16(sub16(viewport.width, 2), min_width)),
        min_width,
    );
    let lines: u16 = if line_count > u16::MAX as usize {
        u16::MAX
    } else {
        line_count as u16
    };
    let height = greater16(lesser16(add16(lines, 4), viewport.height), min_height);
    Rect {
        x: add16(viewport.x, sub16(viewport.width, width) / 2),
        y: add16(viewport.y, sub16(viewport.height, height) / 2),
        width,
        height,
    }
}

/// What a text takes in columns, as far as 16 bits count.
pub open spec fn columns_of(text: Seq<char>) -> u16 {
    let w = crate::ui::tui::wrap::display_width_of(text);
    if w > u16::MAX {
        u16::MAX
    } else {
        w as u16
    }
}

fn columns(text: &str) -> (r: u16)
    ensures
        r == columns_of(text@),
{
    let w = crate::ui::tui::wrap::display_width(text);
    if w > u16::MAX as usize {
        u16::MAX
    } else {
        w as u16
    }
}

/// The widest of the lines from index `i` on, and `acc`.
pub open spec fn widest_from(lines: Seq<Seq<char>>, i: int, acc: u16) -> u16
    decreases lines.len() - i,
{
    if 0 <= i < lines.len() {
        widest_from(lines, i + 1, max16(acc, columns_of(lines[i])))
    } else {
        acc
    }
}

/// What is drawn of the transcript: the width of its rows, the number of
/// rows it has in all, the index of the first row in view, and the rows
/// in view.
#[derive(Debug)]
pub struct TranscriptFrame {
    pub content_width: u16,
    pub total_rows: usize,
    pub offset: usize,
    pub rows: Vec<Vec<StyledSpan>>,
}

/// The width of the rows of a transcript within a frame of a width: the
/// width less the padding at its edge, of which one column always stays.
pub open spec fn content_width_of(inner_width: u16) -> u16 {
    sat_sub16(
        inner_width,
        min16(crate::config::constants::INLINE_SCROLLBAR_EDGE_PADDING, sat_sub16(inner_width, 1))
            as int,
    )
}

impl SessionV {
    /// The session as a frame of the transcript of the given inner size
    /// leaves it: rows and width are taken, and the scroll offset is held
    /// to the largest one.
    pub open spec fn with_transcript_area(self, inner_width: u16, inner_height: u16) -> SessionV {
        SessionV {
            transcript_rows: if inner_height < 1 {
                1
            } else {
                inner_height
            },
            transcript_width: content_width_of(inner_width),
            ..self
        }.with_scroll_bounds()
    }

    /// The spans of the input line: the prompt, then the placeholder
    /// where the input is empty and there is one, else the input.
    pub open spec fn input_row(self) -> Seq<StyledSpanV> {
        let prompt = inline_span(
            self.prompt_prefix,
            InlineTextStyle {
                color: color_or(
                    self.prompt_style.color,
                    color_or(self.theme.primary, self.theme.foreground),
                ),
                ..self.prompt_style
            },
            self.theme.foreground,
        );
        let grey = Some(InlineColor::Rgb(0x88, 0x88, 0x88));
        if self.input.len() == 0 {
            match self.placeholder {
                Some(hint) => seq![
                    prompt,
                    inline_span(
                        hint,
                        match self.placeholder_style {
                            Some(style) => style,
                            None => InlineTextStyle { color: grey, bold: false, italic: true },
                        },
                        grey,
                    ),
                ],
                None => seq![prompt],
            }
        } else {
            seq![
                prompt,
                inline_span(
                    self.input,
                    InlineTextStyle {
                        color: color_or(self.theme.primary, self.theme.foreground),
                        bold: false,
                        italic: false,
                    },
                    self.theme.foreground,
                ),
            ]
        }
    }

    /// The column of the cursor within an input area that begins at
    /// column `x`: after the prompt and the input before the cursor.
    pub open spec fn cursor_column(self, x: u16) -> u16 {
        sat_add16(
            sat_add16(x, columns_of(self.prompt_prefix) as int),
            columns_of(self.input.subrange(0, self.cursor)) as int,
        )
    }

    /// What the navigation pane selects and where its list begins, for a
    /// pane of a height: the last message, at the end of the list; nothing
    /// while the pane is hidden.
    pub open spec fn navigation_selection(self, viewport: usize) -> (Option<usize>, usize) {
        if !self.show_timeline_pane || self.lines.len() == 0 {
            (None, 0)
        } else {
            (
                Some((self.lines.len() - 1) as usize),
                if self.lines.len() > viewport {
                    (self.lines.len() - viewport) as usize
                } else {
                    0
                },
            )
        }
    }
}

impl Session {
    /// Prepares the transcript for a frame whose inside has the given
    /// size, and returns what is drawn of it; nothing where there is no
    /// room.
    pub fn render_transcript(&mut self, inner_width: u16, inner_height: u16) -> (r: Option<
        TranscriptFrame,
    >)
        requires
            old(self).wf(),
        ensures
            final(self).wf(),
            inner_width == 0 || inner_height == 0 ==> r is None && final(self)@ == old(self)@,
            inner_width > 0 && inner_height > 0 ==> r is Some && final(self)@ == old(
                self,
            )@.with_transcript_area(inner_width, inner_height) && {
                let frame = r->0;
                let all = final(self)@.rows_at(frame.content_width);
                &&& frame.content_width == content_width_of(inner_width)
                &&& frame.total_rows == all.len()
                &&& frame.offset == final(self)@.top_row()
                &&& frame.offset <= all.len()
                &&& row_views(frame.rows@) == all.subrange(
                    frame.offset as int,
                    if frame.offset + inner_height > all.len() {
                        all.len() as int
                    } else {
                        frame.offset + inner_height
                    },
                )
            },
    {
        if inner_height == 0 || inner_width == 0 {
            return None;
        }
        self.apply_transcript_rows(inner_height);
        let padding = lesser16(
            crate::config::constants::INLINE_SCROLLBAR_EDGE_PADDING,
            sub16(inner_width, 1),
        );
        let content_width = sub16(inner_width, padding);
        self.apply_transcript_width(content_width);
        self.enforce_scroll_bounds();
        let max_offset = self.current_max_scroll_offset();
        let top = if max_offset > self.scroll_offset {
            max_offset - self.scroll_offset
        } else {
            0
        };
        let total = self.row_count(content_width);
        let viewport = inner_height as usize;
        assert(content_width > 0);
        assert(self@.transcript_width == content_width);
        assert(top <= total);
        let end = if viewport > total - top {
            total
        } else {
            top + viewport
        };
        let rows = match &self.transcript_cache {
            Some(cache) => {
                let mut out: Vec<Vec<StyledSpan>> = Vec::new();
                let mut i: usize = top;
                assert(row_views(cache.flattened@).len() == cache.flattened@.len());
                assert(row_views(out@) =~= row_views(cache.flattened@).subrange(
                    top as int,
                    top as int,
                ));
                while i < end
                    invariant
                        top <= i <= end <= cache.flattened@.len(),
                        row_views(out@) == row_views(cache.flattened@).subrange(
                            top as int,
                            i as int,
                        ),
                    decreases end - i,
                {
                    let ghost before = row_views(out@);
                    let row = duplicate_row(&cache.flattened[i]);
                    out.push(row);
                    assert(row_views(out@) =~= before.push(span_views(cache.flattened@[i as int]@)));
                    assert(row_views(cache.flattened@).subrange(top as int, i + 1) =~= row_views(
                        cache.flattened@,
                    ).subrange(top as int, i as int).push(
                        span_views(cache.flattened@[i as int]@),
                    ));
                    i += 1;
                }
                out
            },
            None => Vec::new(),
        };
        Some(TranscriptFrame { content_width, total_rows: total, offset: top, rows })
    }

    /// The rows of the transcript at a width, all of them.
    pub fn reflow_transcript_lines(&mut self, width: u16) -> (r: Vec<Vec<StyledSpan>>)
        requires
            old(self).wf(),
        ensures
            final(self).wf(),
            final(self)@ == old(self)@,
            row_views(r@) == old(self)@.rows_at(width),
    {
        self.refresh_cache(width);
        match &self.transcript_cache {
            Some(cache) => crate::ui::tui::style::duplicate_rows(&cache.flattened),
            None => Vec::new(),
        }
    }

    /// The spans of the input line.
    pub fn render_input_line(&self) -> (r: Vec<StyledSpan>)
        ensures
            span_views(r@) == self@.input_row(),
    {
        let mut prompt_style = self.prompt_style;
        if prompt_style.color.is_none() {
            prompt_style.color = first_color(self.theme.primary, self.theme.foreground);
        }
        let prompt = make_inline_span(self.prompt_prefix.clone(), &prompt_style, self.theme.foreground);
        let mut spans: Vec<StyledSpan> = Vec::new();
        spans.push(prompt);
        assert(span_views(spans@) =~= seq![prompt@]);
        let grey = Some(InlineColor::Rgb(0x88, 0x88, 0x88));
        if self.input.len() == 0 {
            if let Some(placeholder) = &self.placeholder {
                let style = match self.placeholder_style {
                    Some(style) => style,
                    None => InlineTextStyle { color: grey, bold: false, italic: true },
                };
                let span = make_inline_span(placeholder.clone(), &style, grey);
                spans.push(span);
                assert(span_views(spans@) =~= seq![prompt@, span@]);
            }
        } else {
            let accent = InlineTextStyle {
                color: first_color(self.theme.primary, self.theme.foreground),
                bold: false,
                italic: false,
            };
            let span = make_inline_span(
                string_of(self.input.as_slice()),
                &accent,
                self.theme.foreground,
            );
            spans.push(span);
            assert(span_views(spans@) =~= seq![prompt@, span@]);
        }
        spans
    }

    /// Whether the cursor is to be drawn.
    pub fn cursor_should_be_visible(&self) -> (r: bool)
        ensures
            r == (self@.cursor_visible && self@.input_enabled),
    {
        self.cursor_visible && self.input_enabled
    }

    /// Where the cursor is drawn within an input area that begins at
    /// column `x` of row `y`.
    pub fn cursor_position(&self, x: u16, y: u16) -> (r: (u16, u16))
        requires
            self.wf(),
        ensures
            r.0 == self@.cursor_column(x),
            r.1 == y,
    {
        let prompt_width = columns(self.prompt_prefix.as_str());
        let cursor_width = columns(self.input_before_cursor().as_str());
        (add16(add16(x, prompt_width), cursor_width), y)
    }

    /// What the navigation pane selects and where its list begins.
    pub fn navigation_selection(&self, viewport: usize) -> (r: (Option<usize>, usize))
        ensures
            r == self@.navigation_selection(viewport),
    {
        if !self.show_timeline_pane || self.lines.len() == 0 {
            (None, 0)
        } else {
            (
                Some(self.lines.len() - 1),
                if self.lines.len() > viewport {
                    self.lines.len() - viewport
                } else {
                    0
                },
            )
        }
    }

    /// Where the navigation pane goes.
    pub fn navigation_placement(&self, available_width: u16) -> (r: NavigationPlacement)
        ensures
            r == navigation_placement(self@.show_timeline_pane, available_width),
    {
        place_navigation(self.show_timeline_pane, available_width)
    }

    /// The area of the modal that is open, within a viewport.
    pub fn modal_rect(&self, viewport: Rect) -> (r: Option<Rect>)
        ensures
            match self@.modal {
                Some(modal) => viewport.width > 0 && viewport.height > 0 ==> r == Some(
                    modal_rect(viewport, widest_from(modal.lines, 0, 0), modal.lines.len() as usize),
                ),
                None => r is None,
            },
            viewport.width == 0 || viewport.height == 0 ==> r is None,
    {
        let modal = match &self.modal {
            Some(modal) => modal,
            None => {
                return None;
            },
        };
        if viewport.width == 0 || viewport.height == 0 {
            return None;
        }
        let ghost lines = text_views(modal.lines@);
        let mut widest: u16 = 0;
        let mut i: usize = 0;
        while i < modal.lines.len()
            invariant
                i <= modal.lines.len(),
                lines == text_views(modal.lines@),
                widest_from(lines, i as int, widest) == widest_from(lines, 0, 0),
            decreases modal.lines.len() - i,
        {
            widest = greater16(widest, columns(modal.lines[i].as_str()));
            i += 1;
        }
        Some(modal_area(viewport, widest, modal.lines.len()))
    }

    /// The title and the lines of the modal that is open.
    pub fn modal_text(&self) -> (r: Option<(String, Vec<String>)>)
        ensures
            match r {
                Some((title, lines)) => self@.modal is Some && title@ == self@.modal->0.title
                    && text_views(lines@) == self@.modal->0.lines,
                None => self@.modal is None,
            },
    {
        match &self.modal {
            Some(modal) => Some((modal.title.clone(), crate::text::duplicate_texts(&modal.lines))),
            None => None,
        }
    }

    /// Takes the rows that the list of suggestions has room for, and
    /// returns the selection and where the list begins.
    pub fn prepare_slash_panel(&mut self, inner_height: u16) -> (r: (Option<usize>, usize))
        requires
            old(self).wf(),
        ensures
            final(self).wf(),
            final(self)@ == (SessionV {
                slash_visible_rows: inner_height as usize,
                ..old(self)@
            }).with_slash_synced(),
            r == (final(self)@.slash_selected, final(self)@.slash_offset),
    {
        self.slash_visible_rows = inner_height as usize;
        self.sync_slash_state();
        (self.slash_selected, self.slash_offset)
    }

    /// The suggestions, as indices into the registry of commands.
    pub fn slash_suggestions(&self) -> (r: Vec<usize>)
        ensures
            r@ == self@.slash_suggestions,
    {
        let mut out: Vec<usize> = Vec::new();
        let mut i: usize = 0;
        while i < self.slash_suggestions.len()
            invariant
                i <= self.slash_suggestions.len(),
                out@ == self.slash_suggestions@.subrange(0, i as int),
            decreases self.slash_suggestions.len() - i,
        {
            out.push(self.slash_suggestions[i]);
            assert(self.slash_suggestions@.subrange(0, i + 1) =~= self.slash_suggestions@.subrange(
                0,
                i as int,
            ).push(self.slash_suggestions@[i as int]));
            i += 1;
        }
        assert(self.slash_suggestions@.subrange(0, self.slash_suggestions@.len() as int)
            =~= self.slash_suggestions@);
        out
    }

    /// The selected suggestion.
    pub fn slash_selected(&self) -> (r: Option<usize>)
        ensures
            r == self@.slash_selected,
    {
        self.slash_selected
    }
}

/// The label of a kind of line in the navigation pane.
pub open spec fn navigation_label_of(kind: InlineMessageKind) -> Seq<char> {
    match kind {
        InlineMessageKind::Agent => crate::config::constants::NAVIGATION_LABEL_AGENT@,
        InlineMessageKind::Error => crate::config::constants::NAVIGATION_LABEL_ERROR@,
        InlineMessageKind::Info => crate::config::constants::NAVIGATION_LABEL_INFO@,
        InlineMessageKind::Policy => crate::config::constants::NAVIGATION_LABEL_POLICY@,
        InlineMessageKind::Tool => crate::config::constants::NAVIGATION_LABEL_TOOL@,
        InlineMessageKind::User => crate::config::constants::NAVIGATION_LABEL_USER@,
        InlineMessageKind::Pty => crate::config::constants::NAVIGATION_LABEL_PTY@,
    }
}

/// The label of a kind of line in the navigation pane.
pub fn navigation_label(kind: InlineMessageKind) -> (r: &'static str)
    ensures
        r@ == navigation_label_of(kind),
{
    match kind {
        InlineMessageKind::Agent => crate::config::constants::NAVIGATION_LABEL_AGENT,
        InlineMessageKind::Error => crate::config::constants::NAVIGATION_LABEL_ERROR,
        InlineMessageKind::Info => crate::config::constants::NAVIGATION_LABEL_INFO,
        InlineMessageKind::Policy => crate::config::constants::NAVIGATION_LABEL_POLICY,
        InlineMessageKind::Tool => crate::config::constants::NAVIGATION_LABEL_TOOL,
        InlineMessageKind::User => crate::config::constants::NAVIGATION_LABEL_USER,
        InlineMessageKind::Pty => crate::config::constants::NAVIGATION_LABEL_PTY,
    }
}

/// A text with its line feeds and carriage returns turned into spaces.
pub open spec fn on_one_line(text: Seq<char>) -> Seq<char> {
    Seq::new(
        text.len(),
        |i: int|
            if text[i] == '\n' || text[i] == '\r' {
                ' '
            } else {
                text[i]
            },
    )
}

/// A preview under way: its text, and whether it was cut.
pub struct PreviewV {
    pub text: Seq<char>,
    pub truncated: bool,
}

/// The preview after the characters of a piece from index `j` on: each
/// joins the preview until the preview is full.
pub open spec fn preview_chars_from(piece: Seq<char>, j: int, p: PreviewV) -> PreviewV
    decreases piece.len() - j,
{
    if p.truncated {
        p
    } else if 0 <= j < piece.len() {
        if p.text.len() >= crate::config::constants::INLINE_PREVIEW_MAX_CHARS {
            PreviewV { truncated: true, ..p }
        } else {
            preview_chars_from(piece, j + 1, PreviewV { text: p.text.push(piece[j]), ..p })
        }
    } else {
        p
    }
}

/// The preview after the segments from index `i` on: each is put on one
/// line and trimmed, blank ones are left out, and a space stands between
/// two pieces.
pub open spec fn preview_from(segments: Seq<InlineSegmentV>, i: int, p: PreviewV) -> PreviewV
    decreases segments.len() - i,
{
    if p.truncated {
        p
    } else if 0 <= i < segments.len() {
        let piece = crate::text::trim_spec(on_one_line(segments[i].text));
        if piece.len() == 0 {
            preview_from(segments, i + 1, p)
        } else if p.text.len() > 0 {
            if p.text.len() + 1 > crate::config::constants::INLINE_PREVIEW_MAX_CHARS {
                PreviewV { truncated: true, ..p }
            } else {
                preview_from(
                    segments,
                    i + 1,
                    preview_chars_from(piece, 0, PreviewV { text: p.text.push(' '), ..p }),
                )
            }
        } else {
            preview_from(segments, i + 1, preview_chars_from(piece, 0, p))
        }
    } else {
        p
    }
}

/// The preview of a line in the navigation pane: the texts of its
/// segments on one line, cut to the most characters of a preview, with an
/// ellipsis where it was cut.
pub open spec fn navigation_preview(line: MessageLineV) -> Seq<char> {
    let p = preview_from(line.segments, 0, PreviewV { text: Seq::empty(), truncated: false });
    if p.truncated {
        p.text + crate::config::constants::INLINE_PREVIEW_ELLIPSIS@
    } else {
        p.text
    }
}

/// The number of a line in the navigation pane: at least two digits.
pub open spec fn navigation_number(index: usize) -> Seq<char> {
    if index + 1 < 10 {
        crate::config::constants::NAVIGATION_INDEX_PREFIX@ + "0"@ + crate::text::decimal_spec(
            (index + 1) as nat,
        )
    } else {
        crate::config::constants::NAVIGATION_INDEX_PREFIX@ + crate::text::decimal_spec(
            (index + 1) as nat,
        )
    }
}

/// The spans of a line in the navigation pane: its number, its label, and
/// its preview unless that is empty.
pub open spec fn navigation_row(theme: InlineTheme, index: usize, line: MessageLineV) -> Seq<
    StyledSpanV,
> {
    let head = seq![
        StyledSpanV {
            text: navigation_number(index),
            style: SpanStyle { dim: true, ..header_secondary_style_of(theme) },
        },
        raw_span(" "@),
        inline_span(
            navigation_label_of(line.kind),
            InlineTextStyle {
                color: color_or(text_fallback_of(theme, line.kind), theme.foreground),
                bold: line.kind == InlineMessageKind::Agent || line.kind
                    == InlineMessageKind::User,
                italic: false,
            },
            theme.foreground,
        ),
    ];
    let preview = navigation_preview(line);
    if preview.len() > 0 {
        head.push(raw_span(" "@)).push(
            StyledSpanV { text: preview, style: SpanStyle { dim: true, ..default_style_of(theme) } },
        )
    } else {
        head
    }
}

fn preview_piece(preview: &mut Vec<char>, piece: &[char]) -> (truncated: bool)
    ensures
        (PreviewV { text: final(preview)@, truncated }) == preview_chars_from(
            piece@,
            0,
            PreviewV { text: old(preview)@, truncated: false },
        ),
{
    let ghost start = PreviewV { text: preview@, truncated: false };
    let mut j: usize = 0;
    while j < piece.len()
        invariant
            j <= piece.len(),
            start == (PreviewV { text: old(preview)@, truncated: false }),
            preview_chars_from(piece@, j as int, PreviewV { text: preview@, truncated: false })
                == preview_chars_from(piece@, 0, start),
        decreases piece.len() - j,
    {
        if preview.len() >= crate::config::constants::INLINE_PREVIEW_MAX_CHARS {
            assert(preview_chars_from(
                piece@,
                j as int,
                PreviewV { text: preview@, truncated: false },
            ) == PreviewV { text: preview@, truncated: true });
            return true;
        }
        preview.push(piece[j]);
        j += 1;
    }
    false
}

fn sanitize_line(text: &str) -> (r: Vec<char>)
    ensures
        r@ == crate::text::trim_spec(on_one_line(text@)),
{
    let chars = chars_of(text);
    let mut flat: Vec<char> = Vec::new();
    let mut i: usize = 0;
    while i < chars.len()
        invariant
            i <= chars.len(),
            chars@ == text@,
            flat@.len() == i,
            forall|k: int| 0 <= k < i ==> flat@[k] == on_one_line(text@)[k],
        decreases chars.len() - i,
    {
        let c = chars[i];
        flat.push(
            if c == '\n' || c == '\r' {
                ' '
            } else {
                c
            },
        );
        i += 1;
    }
    assert(flat@ =~= on_one_line(text@));
    crate::text::trim_chars(flat.as_slice())
}

/// The preview of a line in the navigation pane.
pub fn navigation_preview_text(line: &MessageLine) -> (r: String)
    ensures
        r@ == navigation_preview(line@),
{
    let ghost segments = line@.segments;
    let ghost goal = preview_from(segments, 0, PreviewV { text: Seq::empty(), truncated: false });
    let mut preview: Vec<char> = Vec::new();
    let mut truncated = false;
    let mut i: usize = 0;
    while i < line.segments.len() && !truncated
        invariant
            i <= line.segments.len(),
            segments == segment_views(line.segments@),
            preview_from(segments, i as int, PreviewV { text: preview@, truncated }) == goal,
        decreases line.segments.len() - i,
    {
        let piece = sanitize_line(line.segments[i].text.as_str());
        assert(segments[i as int] == line.segments@[i as int]@);
        if piece.len() > 0 {
            if preview.len() > 0 {
                if preview.len() >= crate::config::constants::INLINE_PREVIEW_MAX_CHARS {
                    truncated = true;
                } else {
                    preview.push(' ');
                    truncated = preview_piece(&mut preview, piece.as_slice());
                }
            } else {
                truncated = preview_piece(&mut preview, piece.as_slice());
            }
        }
        i += 1;
    }
    let mut text = string_of(preview.as_slice());
    if truncated {
        text.append(crate::config::constants::INLINE_PREVIEW_ELLIPSIS);
    }
    text
}

/// The spans of a line in the navigation pane.
pub fn navigation_spans(theme: &InlineTheme, index: usize, line: &MessageLine) -> (r: Vec<
    StyledSpan,
>)
    requires
        index < usize::MAX,
    ensures
        span_views(r@) == navigation_row(*theme, index, line@),
{
    let mut number = crate::config::constants::NAVIGATION_INDEX_PREFIX.to_owned();
    if index + 1 < 10 {
        number.append("0");
    }
    number.append(crate::text::decimal((index + 1) as u64).as_str());
    let label_style = InlineTextStyle {
        color: first_color(text_fallback(theme, line.kind), theme.foreground),
        bold: line.kind == InlineMessageKind::Agent || line.kind == InlineMessageKind::User,
        italic: false,
    };
    let mut spans: Vec<StyledSpan> = Vec::new();
    spans.push(StyledSpan { text: number, style: header_secondary_style(theme).with_dim() });
    spans.push(StyledSpan::raw(" ".to_owned()));
    spans.push(
        make_inline_span(navigation_label(line.kind).to_owned(), &label_style, theme.foreground),
    );
    let ghost head = span_views(spans@);
    assert(head =~= seq![
        StyledSpanV {
            text: navigation_number(index),
            style: SpanStyle { dim: true, ..header_secondary_style_of(*theme) },
        },
        raw_span(" "@),
        inline_span(navigation_label_of(line@.kind), label_style, theme.foreground),
    ]);
    let preview = navigation_preview_text(line);
    if !preview.as_str().is_empty() {
        let gap = StyledSpan::raw(" ".to_owned());
        let shown = StyledSpan { text: preview, style: default_style(theme).with_dim() };
        spans.push(gap);
        spans.push(shown);
        assert(span_views(spans@) =~= head.push(gap@).push(shown@));
    }
    spans
}

/// The spans of a suggestion: the command with its slash, and what it
/// does unless that is nothing.
pub open spec fn slash_row(theme: InlineTheme, name: Seq<char>, description: Seq<char>) -> Seq<
    StyledSpanV,
> {
    let command = StyledSpanV {
        text: seq!['/'] + name,
        style: SpanStyle {
            fg: color_or(theme.primary, theme.foreground),
            bold: true,
            ..SpanStyle::plain()
        },
    };
    if description.len() > 0 {
        seq![
            command,
            raw_span(" "@),
            StyledSpanV {
                text: description,
                style: SpanStyle {
                    fg: color_or(theme.secondary, theme.foreground),
                    dim: true,
                    ..SpanStyle::plain()
                },
            },
        ]
    } else {
        seq![command]
    }
}

impl Session {
    /// The rows of the navigation pane: one for each line of the
    /// transcript.
    pub fn navigation_items(&self) -> (r: Vec<Vec<StyledSpan>>)
        ensures
            r@.len() == self@.lines.len(),
            forall|i: int|
                0 <= i < r@.len() ==> span_views(#[trigger] r@[i]@) == navigation_row(
                    self@.theme,
                    i as usize,
                    self@.lines[i],
                ),
    {
        let mut rows: Vec<Vec<StyledSpan>> = Vec::new();
        let mut i: usize = 0;
        while i < self.lines.len()
            invariant
                i <= self.lines.len(),
                rows@.len() == i,
                forall|k: int|
                    0 <= k < i ==> span_views(#[trigger] rows@[k]@) == navigation_row(
                        self.theme,
                        k as usize,
                        self.lines@[k]@,
                    ),
            decreases self.lines.len() - i,
        {
            rows.push(navigation_spans(&self.theme, i, &self.lines[i]));
            i += 1;
        }
        rows
    }

    /// The rows of the list of suggestions.
    pub fn slash_list_items(&self) -> (r: Vec<Vec<StyledSpan>>)
        requires
            self.wf(),
        ensures
            r@.len() == self@.slash_suggestions.len(),
            forall|i: int|
                0 <= i < r@.len() ==> span_views(#[trigger] r@[i]@) == slash_row(
                    self@.theme,
                    crate::ui::slash::command_name(self@.slash_suggestions[i] as int),
                    crate::ui::slash::command_description(self@.slash_suggestions[i] as int),
                ),
    {
        let mut rows: Vec<Vec<StyledSpan>> = Vec::new();
        let mut i: usize = 0;
        while i < self.slash_suggestions.len()
            invariant
                i <= self.slash_suggestions.len(),
                self.wf(),
                rows@.len() == i,
                forall|k: int|
                    0 <= k < i ==> span_views(#[trigger] rows@[k]@) == slash_row(
                        self.theme,
                        crate::ui::slash::command_name(self.slash_suggestions@[k] as int),
                        crate::ui::slash::command_description(self.slash_suggestions@[k] as int),
                    ),
            decreases self.slash_suggestions.len() - i,
        {
            let info = crate::ui::slash::command_at(self.slash_suggestions[i]);
            rows.push(render_slash_row(&self.theme, info.name, info.description));
            i += 1;
        }
        rows
    }
}

/// The spans of a suggestion.
pub fn render_slash_row(theme: &InlineTheme, name: &str, description: &str) -> (r: Vec<StyledSpan>)
    ensures
        span_views(r@) == slash_row(*theme, name@, description@),
{
    let mut text = String::new();
    text.push('/');
    text.append(name);
    assert(text@ =~= seq!['/'] + name@);
    let command = StyledSpan {
        text,
        style: SpanStyle::new().with_bold().with_fg(first_color(theme.primary, theme.foreground)),
    };
    let mut spans: Vec<StyledSpan> = Vec::new();
    spans.push(command);
    assert(span_views(spans@) =~= seq![command@]);
    if !description.is_empty() {
        let gap = StyledSpan::raw(" ".to_owned());
        let shown = StyledSpan {
            text: description.to_owned(),
            style: SpanStyle::new().with_dim().with_fg(
                first_color(theme.secondary, theme.foreground),
            ),
        };
        spans.push(gap);
        spans.push(shown);
        assert(span_views(spans@) =~= seq![command@, gap@, shown@]);
    }
    spans
}

impl SessionV {
    /// The rows the two lines of the header take in a frame of a width
    /// when wrapped within its border, the border's two rows included.
    pub open spec fn header_rows_measured(self, width: u16) -> int {
        let inner = sat_sub16(width, 2) as usize;
        wrapped(self.header_title_row(), inner).len() as int + wrapped(
            self.header_meta_row(),
            inner,
        ).len() + 2
    }
}

impl Session {
    /// The rows the header takes in a frame of a width: its two lines
    /// wrapped within the border, and never fewer than a header has.
    pub fn header_height_for_width(&self, width: u16) -> (r: u16)
        ensures
            width > 0 ==> r == SessionV::header_height_for(
                if self@.header_rows_measured(width) > usize::MAX {
                    usize::MAX
                } else {
                    self@.header_rows_measured(width) as usize
                },
            ),
            width == 0 ==> r == max16(self@.header_rows, INLINE_HEADER_HEIGHT),
    {
        let inner: usize = if width < 2 {
            0
        } else {
            (width - 2) as usize
        };
        let title_line = self.header_title_line();
        let meta_line = self.header_meta_line();
        let title = wrap_line(&title_line, inner);
        let meta = wrap_line(&meta_line, inner);
        assert(row_views(title@).len() == title@.len());
        assert(row_views(meta@).len() == meta@.len());

        let both: usize = if title.len() > usize::MAX - meta.len() {
            usize::MAX
        } else {
            title.len() + meta.len()
        };
        let measured: usize = if both > usize::MAX - 2 {
            usize::MAX
        } else {
            both + 2
        };
        self.header_height_from_lines(width, measured)
    }
}

impl Session {
    /// The theme the session draws with.
    pub fn theme(&self) -> (r: InlineTheme)
        ensures
            r == self@.theme,
    {
        self.theme
    }
}

/// Taking streamed text in leaves the window alone: its offset, its size
/// and what it is drawn with stay as they are.
pub proof fn lemma_inline_scan_keeps_window(
    s: SessionV,
    text: Seq<char>,
    i: int,
    run: int,
    kind: InlineMessageKind,
    style: InlineTextStyle,
)
    ensures
        s.inline_scan(text, i, run, kind, style).scroll_offset == s.scroll_offset,
        s.inline_scan(text, i, run, kind, style).transcript_rows == s.transcript_rows,
        s.inline_scan(text, i, run, kind, style).transcript_width == s.transcript_width,
        s.inline_scan(text, i, run, kind, style).theme == s.theme,
        s.inline_scan(text, i, run, kind, style).labels == s.labels,
    decreases text.len() - i,
{
    if 0 <= i < text.len() && 0 <= run <= i {
        let taken = s.with_text(kind, text.subrange(run, i), style);
        if text[i] == '\n' {
            lemma_inline_scan_keeps_window(
                taken.with_line(kind, Seq::empty()),
                text,
                i + 1,
                i + 1,
                kind,
                style,
            );
        } else if text[i] == '\r' {
            if i + 1 < text.len() && text[i + 1] == '\n' {
                lemma_inline_scan_keeps_window(
                    taken.with_line(kind, Seq::empty()),
                    text,
                    i + 2,
                    i + 2,
                    kind,
                    style,
                );
            } else {
                lemma_inline_scan_keeps_window(
                    taken.with_line_reset(kind),
                    text,
                    i + 1,
                    i + 1,
                    kind,
                    style,
                );
            }
        } else {
            lemma_inline_scan_keeps_window(s, text, i + 1, run, kind, style);
        }
    }
}

/// A view that is scrolled up keeps its window when streamed text joins
/// the transcript, line feeds and all: where the text adds rows, the
/// offset grows by just as many, once, and the first row in view stays
/// the same row.
pub proof fn lemma_append_inline_preserves_scrolled_view(
    s: SessionV,
    kind: InlineMessageKind,
    segment: InlineSegmentV,
)
    requires
        0 < s.scroll_offset <= s.max_scroll_offset(),
        s.inline_scan(segment.text, 0, 0, kind, segment.style).max_scroll_offset()
            >= s.max_scroll_offset(),
        s.inline_scan(segment.text, 0, 0, kind, segment.style).max_scroll_offset() <= usize::MAX,
    ensures
        ({
            let after = s.appended_inline(kind, segment);
            let added = after.max_scroll_offset() - s.max_scroll_offset();
            &&& added >= 0
            &&& after.scroll_offset == s.scroll_offset + added
            &&& after.top_row() == s.top_row()
        }),
{
    lemma_inline_scan_keeps_window(s, segment.text, 0, 0, kind, segment.style);
    let grown = s.inline_scan(segment.text, 0, 0, kind, segment.style);
    let after = s.appended_inline(kind, segment);
    assert(after.lines == grown.lines);
    assert(after.max_scroll_offset() == grown.max_scroll_offset());
}

} // verus!
