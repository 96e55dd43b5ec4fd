//! The plain transcript widgets: lines of styled segments, streamed text
//! that joins them, and a window that scrolls over them line by line. The
//! widgets differ only in what they put before a line.

use crate::llm::provider::opt_text;
use crate::text::{chars_of, slice_chars, string_of};
use crate::ui::tui::prompt::ScrollAction;
use crate::ui::tui::session::{inline_span, MessageLabels, MessageLabelsV};
use crate::ui::tui::style::{color_or, first_color, span_views, SpanStyle, StyledSpan, StyledSpanV};
use crate::ui::tui::types::{
    filter_label, nonempty_label, segment_views, InlineColor, InlineMessageKind, InlineSegment,
    InlineSegmentV, InlineTextStyle, InlineTheme,
};
use vstd::prelude::*;

verus! {

/// What stands before a user's line.
pub const USER_PREFIX: &'static str = "> ";

/// What stands before a line that reports.
pub const STATUS_PREFIX: &'static str = "● ";

/// Model of a [`TranscriptLine`].
pub struct TranscriptLineV {
    pub kind: InlineMessageKind,
    pub segments: Seq<InlineSegmentV>,
}

/// A line of the transcript.
#[derive(Debug)]
pub struct TranscriptLine {
    pub kind: InlineMessageKind,
    pub segments: Vec<InlineSegment>,
}

impl View for TranscriptLine {
    type V = TranscriptLineV;

    open spec fn view(&self) -> TranscriptLineV {
        TranscriptLineV { kind: self.kind, segments: segment_views(self.segments@) }
    }
}

/// The models of a sequence of lines.
pub open spec fn line_views(lines: Seq<TranscriptLine>) -> Seq<TranscriptLineV> {
    Seq::new(lines.len(), |i: int| lines[i]@)
}

/// The models of a list of lists of segments.
pub open spec fn segment_lists(lines: Seq<Vec<InlineSegment>>) -> Seq<Seq<InlineSegmentV>> {
    Seq::new(lines.len(), |i: int| segment_views(lines[i]@))
}

/// The lines after text in a style joined them: nothing changes for no
/// text; the last line takes it where it is of the kind, in its last
/// segment where that has the style, else in a new segment; otherwise a
/// new line takes it.
pub open spec fn lines_with_text(
    lines: Seq<TranscriptLineV>,
    kind: InlineMessageKind,
    text: Seq<char>,
    style: InlineTextStyle,
) -> Seq<TranscriptLineV> {
    if text.len() == 0 {
        lines
    } else if lines.len() > 0 && lines.last().kind == kind {
        let segments = lines.last().segments;
        lines.update(
            lines.len() - 1,
            TranscriptLineV {
                kind,
                segments: if segments.len() > 0 && segments.last().style == style {
                    segments.update(
                        segments.len() - 1,
                        InlineSegmentV { text: segments.last().text + text, style },
                    )
                } else {
                    segments.push(InlineSegmentV { text, style })
                },
            },
        )
    } else {
        lines.push(TranscriptLineV { kind, segments: seq![InlineSegmentV { text, style }] })
    }
}

/// The lines with an empty line of a kind at the end.
pub open spec fn lines_started(lines: Seq<TranscriptLineV>, kind: InlineMessageKind) -> Seq<
    TranscriptLineV,
> {
    lines.push(TranscriptLineV { kind, segments: Seq::empty() })
}

/// The lines after a carriage return: the last line is emptied where it
/// is of the kind, else an empty line begins.
pub open spec fn lines_reset(lines: Seq<TranscriptLineV>, kind: InlineMessageKind) -> Seq<
    TranscriptLineV,
> {
    if lines.len() > 0 && lines.last().kind == kind {
        lines.update(lines.len() - 1, TranscriptLineV { kind, segments: Seq::empty() })
    } else {
        lines_started(lines, kind)
    }
}

/// The lines after the characters of streamed text from index `i` on,
/// where the run of plain text under way began at `run`: a line feed ends
/// the run and begins a line, a carriage return before a line feed counts
/// with it, and a lone carriage return ends the run and empties the line.
pub open spec fn lines_scan(
    lines: Seq<TranscriptLineV>,
    text: Seq<char>,
    i: int,
    run: int,
    kind: InlineMessageKind,
    style: InlineTextStyle,
) -> Seq<TranscriptLineV>
    decreases text.len() - i,
{
    if 0 <= i < text.len() && 0 <= run <= i {
        if text[i] == '\n' {
            lines_scan(
                lines_started(lines_with_text(lines, kind, text.subrange(run, i), style), kind),
                text,
                i + 1,
                i + 1,
                kind,
                style,
            )
        } else if text[i] == '\r' {
            if i + 1 < text.len() && text[i + 1] == '\n' {
                lines_scan(
                    lines_started(
                        lines_with_text(lines, kind, text.subrange(run, i), style),
                        kind,
                    ),
                    text,
                    i + 2,
                    i + 2,
                    kind,
                    style,
                )
            } else {
                lines_scan(
                    lines_reset(lines_with_text(lines, kind, text.subrange(run, i), style), kind),
                    text,
                    i + 1,
                    i + 1,
                    kind,
                    style,
                )
            }
        } else {
            lines_scan(lines, text, i + 1, run, kind, style)
        }
    } else if 0 <= run <= text.len() {
        lines_with_text(lines, kind, text.subrange(run, text.len() as int), style)
    } else {
        lines
    }
}

/// Model of a [`TranscriptBuffer`].
pub struct TranscriptBufferV {
    pub lines: Seq<TranscriptLineV>,
    pub scroll_offset: usize,
    pub viewport_height: usize,
}

/// The lines of a transcript and the window over them: the scroll offset
/// counts the lines below the window.
#[derive(Debug)]
pub struct TranscriptBuffer {
    pub lines: Vec<TranscriptLine>,
    pub scroll_offset: usize,
    pub viewport_height: usize,
}

impl View for TranscriptBuffer {
    type V = TranscriptBufferV;

    open spec fn view(&self) -> TranscriptBufferV {
        TranscriptBufferV {
            lines: line_views(self.lines@),
            scroll_offset: self.scroll_offset,
            viewport_height: self.viewport_height,
        }
    }
}

impl TranscriptBufferV {
    /// The buffer with its scroll offset held to the number of lines.
    pub open spec fn bounded(self) -> TranscriptBufferV {
        TranscriptBufferV {
            scroll_offset: if self.scroll_offset > self.lines.len() {
                self.lines.len() as usize
            } else {
                self.scroll_offset
            },
            ..self
        }
    }

    /// The height of a page: the height of the viewport, at least one.
    pub open spec fn page(self) -> int {
        if self.viewport_height < 1 {
            1
        } else {
            self.viewport_height as int
        }
    }

    /// The buffer with one more line: a window that is scrolled up moves
    /// one line further up, so that it stays on its lines.
    pub open spec fn pushed(self, kind: InlineMessageKind, segments: Seq<InlineSegmentV>)
        -> TranscriptBufferV {
        TranscriptBufferV {
            lines: self.lines.push(TranscriptLineV { kind, segments }),
            scroll_offset: if self.scroll_offset > 0 {
                if self.scroll_offset + 1 > self.lines.len() + 1 {
                    (self.lines.len() + 1) as usize
                } else {
                    (self.scroll_offset + 1) as usize
                }
            } else {
                0
            },
            ..self
        }.bounded()
    }

    /// The buffer after streamed text joined it.
    pub open spec fn appended_inline(self, kind: InlineMessageKind, segment: InlineSegmentV)
        -> TranscriptBufferV {
        TranscriptBufferV {
            lines: lines_scan(self.lines, segment.text, 0, 0, kind, segment.style),
            ..self
        }.bounded()
    }

    /// The buffer after its last `count` lines, or all it has, gave way
    /// to new ones of a kind.
    pub open spec fn replaced_last(
        self,
        count: usize,
        kind: InlineMessageKind,
        added: Seq<Seq<InlineSegmentV>>,
    ) -> TranscriptBufferV {
        let keep = if count < self.lines.len() {
            self.lines.len() - count
        } else {
            0
        };
        TranscriptBufferV {
            lines: self.lines.subrange(0, keep) + Seq::new(
                added.len(),
                |i: int| TranscriptLineV { kind, segments: added[i] },
            ),
            ..self
        }.bounded()
    }

    /// The buffer after a scroll: by a line or by a page, never above
    /// the first line and never below the last.
    pub open spec fn scrolled(self, action: ScrollAction) -> TranscriptBufferV {
        TranscriptBufferV {
            scroll_offset: match action {
                ScrollAction::LineUp => if self.scroll_offset < self.lines.len() {
                    (self.scroll_offset + 1) as usize
                } else {
                    self.scroll_offset
                },
                ScrollAction::LineDown => if self.scroll_offset > 0 {
                    (self.scroll_offset - 1) as usize
                } else {
                    0
                },
                ScrollAction::PageUp => if self.scroll_offset + self.page() > self.lines.len() {
                    self.lines.len() as usize
                } else {
                    (self.scroll_offset + self.page()) as usize
                },
                ScrollAction::PageDown => if self.scroll_offset > self.page() {
                    (self.scroll_offset - self.page()) as usize
                } else {
                    0
                },
            },
            ..self
        }
    }

    /// The buffer in a viewport of a height, which counts as one at
    /// least.
    pub open spec fn with_viewport(self, height: usize) -> TranscriptBufferV {
        TranscriptBufferV {
            viewport_height: if height < 1 {
                1
            } else {
                height
            },
            ..self
        }.bounded()
    }

    /// Where the window ends: above the lines that the offset leaves
    /// below it.
    pub open spec fn window_end(self) -> int {
        if self.scroll_offset > self.lines.len() {
            0
        } else {
            self.lines.len() - self.scroll_offset
        }
    }

    /// Where the window begins: a page above its end, or at the first
    /// line.
    pub open spec fn window_start(self) -> int {
        if self.window_end() > self.page() {
            self.window_end() - self.page()
        } else {
            0
        }
    }
}

fn append_text(lines: &mut Vec<TranscriptLine>, kind: InlineMessageKind, text: &[char], style:
    InlineTextStyle)
    ensures
        line_views(final(lines)@) == lines_with_text(line_views(old(lines)@), kind, text@, style),
{
    if text.len() == 0 {
        return ;
    }
    let n = lines.len();
    let ghost before = line_views(lines@);
    if n > 0 && lines[n - 1].kind == kind {
        let mut line = match lines.pop() {
            Some(line) => line,
            None => TranscriptLine { kind, segments: Vec::new() },
        };
        let ghost segments = segment_views(line.segments@);
        let m = line.segments.len();
        if m > 0 && line.segments[m - 1].style == style {
            let mut joined = line.segments[m - 1].text.clone();
            joined.append(string_of(text).as_str());
            line.segments.set(m - 1, InlineSegment { text: joined, style });
            assert(segment_views(line.segments@) =~= segments.update(
                m - 1,
                InlineSegmentV { text: segments.last().text + text@, style },
            ));
        } else {
            line.segments.push(InlineSegment { text: string_of(text), style });
            assert(segment_views(line.segments@) =~= segments.push(
                InlineSegmentV { text: text@, style },
            ));
        }
        lines.push(line);
        assert(line_views(lines@) =~= before.update(n - 1, line@));
    } else {
        let mut segments: Vec<InlineSegment> = Vec::new();
        segments.push(InlineSegment { text: string_of(text), style });
        assert(segment_views(segments@) =~= seq![InlineSegmentV { text: text@, style }]);
        let line = TranscriptLine { kind, segments };
        lines.push(line);
        assert(line_views(lines@) =~= before.push(line@));
    }
}

fn start_line(lines: &mut Vec<TranscriptLine>, kind: InlineMessageKind)
    ensures
        line_views(final(lines)@) == lines_started(line_views(old(lines)@), kind),
{
    let ghost before = line_views(lines@);
    let segments: Vec<InlineSegment> = Vec::new();
    assert(segment_views(segments@) =~= Seq::empty());
    let line = TranscriptLine { kind, segments };
    lines.push(line);
    assert(line_views(lines@) =~= before.push(line@));
}

fn reset_line(lines: &mut Vec<TranscriptLine>, kind: InlineMessageKind)
    ensures
        line_views(final(lines)@) == lines_reset(line_views(old(lines)@), kind),
{
    let n = lines.len();
    if n > 0 && lines[n - 1].kind == kind {
        let ghost before = line_views(lines@);
        lines.pop();
        let segments: Vec<InlineSegment> = Vec::new();
        assert(segment_views(segments@) =~= Seq::empty());
        let line = TranscriptLine { kind, segments };
        lines.push(line);
        assert(line_views(lines@) =~= before.update(n - 1, line@));
        return ;
    }
    start_line(lines, kind);
}

impl TranscriptBuffer {
    /// A buffer without lines, in a viewport of one line.
    pub fn new() -> (r: TranscriptBuffer)
        ensures
            r@ == (TranscriptBufferV {
                lines: Seq::empty(),
                scroll_offset: 0,
                viewport_height: 1,
            }),
    {
        let r = TranscriptBuffer { lines: Vec::new(), scroll_offset: 0, viewport_height: 1 };
        assert(r@.lines =~= Seq::empty());
        r
    }

    fn enforce_scroll_bounds(&mut self)
        ensures
            final(self)@ == old(self)@.bounded(),
    {
        if self.scroll_offset > self.lines.len() {
            self.scroll_offset = self.lines.len();
        }
    }

    /// Adds a line at the end.
    pub fn push_line(&mut self, kind: InlineMessageKind, segments: Vec<InlineSegment>)
        ensures
            final(self)@ == old(self)@.pushed(kind, segment_views(segments@)),
    {
        let ghost before = line_views(self.lines@);
        let line = TranscriptLine { kind, segments };
        self.lines.push(line);
        assert(line_views(self.lines@) =~= before.push(line@));
        if self.scroll_offset > 0 {
            self.scroll_offset = if self.scroll_offset >= self.lines.len() {
                self.lines.len()
            } else {
                self.scroll_offset + 1
            };
        }
        self.enforce_scroll_bounds();
    }

    /// Adds streamed text: it joins the last line of its kind, a line
    /// feed begins a new line, and a lone carriage return empties the
    /// line under way.
    pub fn append_inline(&mut self, kind: InlineMessageKind, segment: InlineSegment)
        ensures
            final(self)@ == old(self)@.appended_inline(kind, segment@),
    {
        let text = chars_of(segment.text.as_str());
        let style = segment.style;
        let ghost goal = lines_scan(line_views(self.lines@), text@, 0, 0, kind, style);
        let mut run: usize = 0;
        let mut i: usize = 0;
        while i < text.len()
            invariant
                run <= i <= text.len(),
                self.scroll_offset == old(self).scroll_offset,
                self.viewport_height == old(self).viewport_height,
                lines_scan(line_views(self.lines@), text@, i as int, run as int, kind, style)
                    == goal,
            decreases text.len() - i,
        {
            let c = text[i];
            if c == '\n' {
                let piece = slice_chars(text.as_slice(), run, i);
                append_text(&mut self.lines, kind, piece.as_slice(), style);
                start_line(&mut self.lines, kind);
                i += 1;
                run = i;
            } else if c == '\r' {
                let piece = slice_chars(text.as_slice(), run, i);
                append_text(&mut self.lines, kind, piece.as_slice(), style);
                if i + 1 < text.len() && text[i + 1] == '\n' {
                    start_line(&mut self.lines, kind);
                    i += 2;
                } else {
                    reset_line(&mut self.lines, kind);
                    i += 1;
                }
                run = i;
            } else {
                i += 1;
            }
        }
        let piece = slice_chars(text.as_slice(), run, text.len());
        append_text(&mut self.lines, kind, piece.as_slice(), style);
        self.enforce_scroll_bounds();
    }

    /// Replaces the last `count` lines.
    pub fn replace_last(
        &mut self,
        count: usize,
        kind: InlineMessageKind,
        lines: Vec<Vec<InlineSegment>>,
    )
        ensures
            final(self)@ == old(self)@.replaced_last(count, kind, segment_lists(lines@)),
    {
        let keep = if count < self.lines.len() {
            self.lines.len() - count
        } else {
            0
        };
        let ghost before = line_views(self.lines@);
        self.lines.truncate(keep);
        let ghost kept = before.subrange(0, keep as int);
        assert(line_views(self.lines@) =~= kept);
        let ghost added = segment_lists(lines@);
        let mut lines = lines;
        let total = lines.len();
        let mut i: usize = 0;
        while i < total
            invariant
                i <= total,
                total == lines@.len(),
                added.len() == total,
                self.scroll_offset == old(self).scroll_offset,
                self.viewport_height == old(self).viewport_height,
                forall|k: int| i <= k < total ==> segment_views(#[trigger] lines@[k]@) == added[k],
                line_views(self.lines@) == kept + Seq::new(
                    i as nat,
                    |k: int| TranscriptLineV { kind, segments: added[k] },
                ),
            decreases total - i,
        {
            let mut segments: Vec<InlineSegment> = Vec::new();
            std::mem::swap(&mut segments, &mut lines[i]);
            assert(segment_views(segments@) == added[i as int]);
            let ghost held = line_views(self.lines@);
            let line = TranscriptLine { kind, segments };
            self.lines.push(line);
            assert(line_views(self.lines@) =~= held.push(line@));
            assert(line_views(self.lines@) =~= kept + Seq::new(
                (i + 1) as nat,
                |k: int| TranscriptLineV { kind, segments: added[k] },
            ));
            i += 1;
        }
        self.enforce_scroll_bounds();
    }

    /// Scrolls by a line or by a page.
    pub fn scroll(&mut self, action: ScrollAction)
        ensures
            final(self)@ == old(self)@.scrolled(action),
    {
        let page = if self.viewport_height < 1 {
            1
        } else {
            self.viewport_height
        };
        match action {
            ScrollAction::LineUp => {
                if self.scroll_offset < self.lines.len() {
                    self.scroll_offset += 1;
                }
            },
            ScrollAction::LineDown => {
                if self.scroll_offset > 0 {
                    self.scroll_offset -= 1;
                }
            },
            ScrollAction::PageUp => {
                self.scroll_offset = if page > self.lines.len() || self.scroll_offset
                    > self.lines.len() - page {
                    self.lines.len()
                } else {
                    self.scroll_offset + page
                };
            },
            ScrollAction::PageDown => {
                if self.scroll_offset > page {
                    self.scroll_offset -= page;
                } else {
                    self.scroll_offset = 0;
                }
            },
        }
    }

    /// Takes the height of the viewport.
    pub fn set_viewport_height(&mut self, height: usize)
        ensures
            final(self)@ == old(self)@.with_viewport(height),
    {
        self.viewport_height = if height < 1 {
            1
        } else {
            height
        };
        self.enforce_scroll_bounds();
    }

    /// The lines in the window, as the first and one past the last.
    pub fn visible_range(&self) -> (r: (usize, usize))
        ensures
            r.0 == self@.window_start(),
            r.1 == self@.window_end(),
            r.0 <= r.1 <= self.lines@.len(),
    {
        let end = if self.scroll_offset > self.lines.len() {
            0
        } else {
            self.lines.len() - self.scroll_offset
        };
        let page = if self.viewport_height < 1 {
            1
        } else {
            self.viewport_height
        };
        let start = if end > page {
            end - page
        } else {
            0
        };
        (start, end)
    }
}

/// The colour of a kind of line where its segments have none: the primary
/// colour for what the agent, a policy, a tool, a terminal or an error
/// says, the secondary one for the user, each with the foreground behind
/// it.
pub open spec fn view_fallback(theme: InlineTheme, kind: InlineMessageKind) -> Option<InlineColor> {
    match kind {
        InlineMessageKind::User => color_or(theme.secondary, theme.foreground),
        InlineMessageKind::Info => theme.foreground,
        _ => color_or(theme.primary, theme.foreground),
    }
}

/// The colour of a kind of line in the older widget: the primary colour
/// for the agent and a policy, the secondary one for the user, the
/// foreground for the rest.
pub open spec fn plain_fallback(theme: InlineTheme, kind: InlineMessageKind) -> Option<InlineColor> {
    match kind {
        InlineMessageKind::Agent | InlineMessageKind::Policy => color_or(
            theme.primary,
            theme.foreground,
        ),
        InlineMessageKind::User => color_or(theme.secondary, theme.foreground),
        _ => theme.foreground,
    }
}

/// The first colour that a segment from index `i` on has of its own.
pub open spec fn first_segment_color(segments: Seq<InlineSegmentV>, i: int) -> Option<InlineColor>
    decreases segments.len() - i,
{
    if 0 <= i < segments.len() {
        if segments[i].style.color is Some {
            segments[i].style.color
        } else {
            first_segment_color(segments, i + 1)
        }
    } else {
        None
    }
}

/// The colour of what stands before a line: the first colour of its
/// segments, else the colour of its kind, else the foreground, else
/// white.
pub open spec fn prefix_color(
    segments: Seq<InlineSegmentV>,
    fallback: Option<InlineColor>,
    foreground: Option<InlineColor>,
) -> InlineColor {
    match first_segment_color(segments, 0) {
        Some(color) => color,
        None => match color_or(fallback, foreground) {
            Some(color) => color,
            None => InlineColor::Ansi(15),
        },
    }
}

/// The spans of the segments from index `i` on, each in its style with
/// the fallback colour, added to `spans`.
pub open spec fn segment_spans_from(
    segments: Seq<InlineSegmentV>,
    i: int,
    fallback: Option<InlineColor>,
    spans: Seq<StyledSpanV>,
) -> Seq<StyledSpanV>
    decreases segments.len() - i,
{
    if 0 <= i < segments.len() {
        segment_spans_from(
            segments,
            i + 1,
            fallback,
            spans.push(inline_span(segments[i].text, segments[i].style, fallback)),
        )
    } else {
        spans
    }
}

/// The spans of a line: what stands before it, where that is anything,
/// in the colour of the prefix; then its segments, or one empty span for
/// a line without segments.
pub open spec fn line_spans(
    line: TranscriptLineV,
    prefix: Option<Seq<char>>,
    fallback: Option<InlineColor>,
    foreground: Option<InlineColor>,
) -> Seq<StyledSpanV> {
    let head = match prefix {
        Some(text) => seq![
            StyledSpanV {
                text,
                style: SpanStyle {
                    fg: Some(prefix_color(line.segments, fallback, foreground)),
                    ..SpanStyle::plain()
                },
            },
        ],
        None => Seq::empty(),
    };
    if line.segments.len() == 0 {
        head.push(StyledSpanV { text: Seq::empty(), style: SpanStyle::plain() })
    } else {
        segment_spans_from(line.segments, 0, color_or(fallback, foreground), head)
    }
}

fn render_line(
    line: &TranscriptLine,
    prefix: Option<String>,
    fallback: Option<InlineColor>,
    foreground: Option<InlineColor>,
) -> (r: Vec<StyledSpan>)
    ensures
        span_views(r@) == line_spans(line@, opt_text(prefix), fallback, foreground),
{
    let ghost segments = segment_views(line.segments@);
    let mut spans: Vec<StyledSpan> = Vec::new();
    assert(span_views(spans@) =~= Seq::empty());
    if let Some(text) = prefix {
        let mut own: Option<InlineColor> = None;
        let mut k: usize = 0;
        while k < line.segments.len() && own.is_none()
            invariant
                k <= line.segments.len(),
                segments == segment_views(line.segments@),
                match own {
                    Some(color) => first_segment_color(segments, 0) == Some(color),
                    None => first_segment_color(segments, k as int) == first_segment_color(
                        segments,
                        0,
                    ),
                },
            decreases line.segments.len() - k + if own is None { 1int } else { 0int },
        {
            if line.segments[k].style.color.is_some() {
                own = line.segments[k].style.color;
            } else {
                k += 1;
            }
        }
        let color = match own {
            Some(color) => color,
            None => match first_color(fallback, foreground) {
                Some(color) => color,
                None => InlineColor::Ansi(15),
            },
        };
        let span = StyledSpan { text, style: SpanStyle::new().with_fg(Some(color)) };
        spans.push(span);
        assert(span_views(spans@) =~= seq![span@]);
    }
    if line.segments.len() == 0 {
        let ghost head = span_views(spans@);
        let blank = StyledSpan::raw(String::new());
        spans.push(blank);
        assert(span_views(spans@) =~= head.push(blank@));
        return spans;
    }
    let ghost goal = segment_spans_from(
        segments,
        0,
        color_or(fallback, foreground),
        span_views(spans@),
    );
    let mut i: usize = 0;
    while i < line.segments.len()
        invariant
            i <= line.segments.len(),
            segments == segment_views(line.segments@),
            segment_spans_from(segments, i as int, color_or(fallback, foreground), span_views(spans@))
                == goal,
        decreases line.segments.len() - i,
    {
        let ghost held = span_views(spans@);
        let span = StyledSpan {
            text: line.segments[i].text.clone(),
            style: SpanStyle::from_inline(
                &line.segments[i].style,
                first_color(fallback, foreground),
            ),
        };
        spans.push(span);
        assert(span_views(spans@) =~= held.push(span@));
        i += 1;
    }
    spans
}

/// Model of a [`TranscriptView`].
pub struct TranscriptViewV {
    pub buffer: TranscriptBufferV,
    pub theme: InlineTheme,
    pub labels: MessageLabelsV,
}

/// The transcript widget with labels: the user's and the agent's lines
/// begin with their label, or with a mark where none is set.
#[derive(Debug)]
pub struct TranscriptView {
    pub buffer: TranscriptBuffer,
    pub theme: InlineTheme,
    pub labels: MessageLabels,
}

impl View for TranscriptView {
    type V = TranscriptViewV;

    open spec fn view(&self) -> TranscriptViewV {
        TranscriptViewV { buffer: self.buffer@, theme: self.theme, labels: self.labels@ }
    }
}

impl TranscriptViewV {
    /// What stands before a line of a kind: the user's label or mark for
    /// the user, the agent's label or the status mark for the agent and a
    /// policy, the status mark for a tool, a terminal and an error, and
    /// nothing for information.
    pub open spec fn prefix_of(self, kind: InlineMessageKind) -> Option<Seq<char>> {
        match kind {
            InlineMessageKind::User => Some(
                match self.labels.user {
                    Some(label) => label,
                    None => USER_PREFIX@,
                },
            ),
            InlineMessageKind::Agent | InlineMessageKind::Policy => Some(
                match self.labels.agent {
                    Some(label) => label,
                    None => STATUS_PREFIX@,
                },
            ),
            InlineMessageKind::Info => None,
            _ => Some(STATUS_PREFIX@),
        }
    }

    /// The rows of the lines from index `i` up to `end`.
    pub open spec fn rows_between(self, i: int, end: int) -> Seq<Seq<StyledSpanV>>
        decreases end - i,
    {
        if 0 <= i < end && end <= self.buffer.lines.len() {
            seq![
                line_spans(
                    self.buffer.lines[i],
                    self.prefix_of(self.buffer.lines[i].kind),
                    view_fallback(self.theme, self.buffer.lines[i].kind),
                    self.theme.foreground,
                ),
            ] + self.rows_between(i + 1, end)
        } else {
            Seq::empty()
        }
    }

    /// The rows in the window, or one empty row for a transcript without
    /// lines.
    pub open spec fn visible_rows(self) -> Seq<Seq<StyledSpanV>> {
        if self.buffer.lines.len() == 0 {
            seq![seq![StyledSpanV { text: Seq::empty(), style: SpanStyle::plain() }]]
        } else {
            self.rows_between(self.buffer.window_start(), self.buffer.window_end())
        }
    }
}

fn blank_rows() -> (r: Vec<Vec<StyledSpan>>)
    ensures
        crate::ui::tui::style::row_views(r@) == seq![
            seq![StyledSpanV { text: Seq::<char>::empty(), style: SpanStyle::plain() }],
        ],
{
    let mut row: Vec<StyledSpan> = Vec::new();
    let blank = StyledSpan::raw(String::new());
    row.push(blank);
    assert(span_views(row@) =~= seq![blank@]);
    let mut rows: Vec<Vec<StyledSpan>> = Vec::new();
    rows.push(row);
    assert(crate::ui::tui::style::row_views(rows@) =~= seq![span_views(row@)]);
    rows
}

impl TranscriptView {
    /// A widget without lines or labels.
    pub fn new(theme: InlineTheme) -> (r: TranscriptView)
        ensures
            r@ == (TranscriptViewV {
                buffer: TranscriptBufferV {
                    lines: Seq::empty(),
                    scroll_offset: 0,
                    viewport_height: 1,
                },
                theme,
                labels: MessageLabelsV { agent: None, user: None },
            }),
    {
        TranscriptView {
            buffer: TranscriptBuffer::new(),
            theme,
            labels: MessageLabels { agent: None, user: None },
        }
    }

    pub fn set_theme(&mut self, theme: InlineTheme)
        ensures
            final(self)@ == (TranscriptViewV { theme, ..old(self)@ }),
    {
        self.theme = theme;
    }

    /// Sets the labels; an empty label counts as none.
    pub fn set_labels(&mut self, agent: Option<String>, user: Option<String>)
        ensures
            final(self)@ == (TranscriptViewV {
                labels: MessageLabelsV {
                    agent: nonempty_label(opt_text(agent)),
                    user: nonempty_label(opt_text(user)),
                },
                ..old(self)@
            }),
    {
        self.labels = MessageLabels { agent: filter_label(agent), user: filter_label(user) };
    }

    /// Adds a line at the end.
    pub fn push_line(&mut self, kind: InlineMessageKind, segments: Vec<InlineSegment>)
        ensures
            final(self)@ == (TranscriptViewV {
                buffer: old(self)@.buffer.pushed(kind, segment_views(segments@)),
                ..old(self)@
            }),
    {
        self.buffer.push_line(kind, segments);
    }

    /// Adds streamed text.
    pub fn append_inline(&mut self, kind: InlineMessageKind, segment: InlineSegment)
        ensures
            final(self)@ == (TranscriptViewV {
                buffer: old(self)@.buffer.appended_inline(kind, segment@),
                ..old(self)@
            }),
    {
        self.buffer.append_inline(kind, segment);
    }

    /// Replaces the last `count` lines.
    pub fn replace_last(
        &mut self,
        count: usize,
        kind: InlineMessageKind,
        lines: Vec<Vec<InlineSegment>>,
    )
        ensures
            final(self)@ == (TranscriptViewV {
                buffer: old(self)@.buffer.replaced_last(count, kind, segment_lists(lines@)),
                ..old(self)@
            }),
    {
        self.buffer.replace_last(count, kind, lines);
    }

    /// Scrolls by a line or by a page.
    pub fn scroll(&mut self, action: ScrollAction)
        ensures
            final(self)@ == (TranscriptViewV {
                buffer: old(self)@.buffer.scrolled(action),
                ..old(self)@
            }),
    {
        self.buffer.scroll(action);
    }

    fn prefix_text(&self, kind: InlineMessageKind) -> (r: Option<String>)
        ensures
            opt_text(r) == self@.prefix_of(kind),
    {
        match kind {
            InlineMessageKind::User => Some(
                match &self.labels.user {
                    Some(label) => label.clone(),
                    None => USER_PREFIX.to_owned(),
                },
            ),
            InlineMessageKind::Agent | InlineMessageKind::Policy => Some(
                match &self.labels.agent {
                    Some(label) => label.clone(),
                    None => STATUS_PREFIX.to_owned(),
                },
            ),
            InlineMessageKind::Info => None,
            _ => Some(STATUS_PREFIX.to_owned()),
        }
    }

    fn text_fallback(&self, kind: InlineMessageKind) -> (r: Option<InlineColor>)
        ensures
            r == view_fallback(self.theme, kind),
    {
        match kind {
            InlineMessageKind::User => first_color(self.theme.secondary, self.theme.foreground),
            InlineMessageKind::Info => self.theme.foreground,
            _ => first_color(self.theme.primary, self.theme.foreground),
        }
    }

    /// Takes the height of the area it is drawn in, and gives the rows to
    /// draw there.
    pub fn render(&mut self, height: usize) -> (r: Vec<Vec<StyledSpan>>)
        ensures
            final(self)@ == (TranscriptViewV {
                buffer: old(self)@.buffer.with_viewport(height),
                ..old(self)@
            }),
            crate::ui::tui::style::row_views(r@) == final(self)@.visible_rows(),
    {
        self.buffer.set_viewport_height(height);
        if self.buffer.lines.len() == 0 {
            return blank_rows();
        }
        let (start, end) = self.buffer.visible_range();
        let mut rows: Vec<Vec<StyledSpan>> = Vec::new();
        assert(crate::ui::tui::style::row_views(rows@) =~= Seq::empty());
        let mut i: usize = end;
        while i > start
            invariant
                start <= i <= end,
                end <= self.buffer.lines@.len(),
                self@.buffer.lines == line_views(self.buffer.lines@),
                (seq_reversed(crate::ui::tui::style::row_views(rows@))) == self@.rows_between(
                    i as int,
                    end as int,
                ),
            decreases i,
        {
            i -= 1;
            let line = &self.buffer.lines[i];
            let ghost held = crate::ui::tui::style::row_views(rows@);
            let row = render_line(
                line,
                self.prefix_text(line.kind),
                self.text_fallback(line.kind),
                self.theme.foreground,
            );
            rows.push(row);
            assert(crate::ui::tui::style::row_views(rows@) =~= held.push(span_views(row@)));
            assert(seq_reversed(held.push(span_views(row@))) =~= seq![span_views(row@)]
                + seq_reversed(held));
        }
        reverse_rows(rows)
    }
}

/// A sequence back to front.
pub open spec fn seq_reversed<A>(s: Seq<A>) -> Seq<A> {
    Seq::new(s.len(), |i: int| s[s.len() - 1 - i])
}

fn reverse_rows(rows: Vec<Vec<StyledSpan>>) -> (r: Vec<Vec<StyledSpan>>)
    ensures
        crate::ui::tui::style::row_views(r@) == seq_reversed(crate::ui::tui::style::row_views(rows@)),
{
    let ghost all = crate::ui::tui::style::row_views(rows@);
    let mut rows = rows;
    let mut out: Vec<Vec<StyledSpan>> = Vec::new();
    while rows.len() > 0
        invariant
            rows@.len() + out@.len() == all.len(),
            forall|k: int|
                0 <= k < rows@.len() ==> span_views(#[trigger] rows@[k]@) == all[k],
            forall|k: int|
                0 <= k < out@.len() ==> span_views(#[trigger] out@[k]@) == all[all.len() - 1 - k],
        decreases rows.len(),
    {
        if let Some(row) = rows.pop() {
            out.push(row);
        }
    }
    assert(crate::ui::tui::style::row_views(out@) =~= seq_reversed(all));
    out
}

/// Model of a [`Transcript`].
pub struct TranscriptV {
    pub buffer: TranscriptBufferV,
    pub theme: InlineTheme,
}

/// The transcript widget with marks: the user's lines begin with the
/// user's mark, the agent's lines and information with nothing, and every
/// other line with the status mark. It takes no labels.
#[derive(Debug)]
pub struct Transcript {
    pub buffer: TranscriptBuffer,
    pub theme: InlineTheme,
}

impl View for Transcript {
    type V = TranscriptV;

    open spec fn view(&self) -> TranscriptV {
        TranscriptV { buffer: self.buffer@, theme: self.theme }
    }
}

/// The mark before a line of a kind, if it has one.
pub open spec fn indicator_of(kind: InlineMessageKind) -> Option<Seq<char>> {
    match kind {
        InlineMessageKind::User => Some(USER_PREFIX@),
        InlineMessageKind::Agent | InlineMessageKind::Info => None,
        _ => Some(STATUS_PREFIX@),
    }
}

impl TranscriptV {
    /// The rows of the lines from index `i` up to `end`.
    pub open spec fn rows_between(self, i: int, end: int) -> Seq<Seq<StyledSpanV>>
        decreases end - i,
    {
        if 0 <= i < end && end <= self.buffer.lines.len() {
            seq![
                line_spans(
                    self.buffer.lines[i],
                    indicator_of(self.buffer.lines[i].kind),
                    plain_fallback(self.theme, self.buffer.lines[i].kind),
                    self.theme.foreground,
                ),
            ] + self.rows_between(i + 1, end)
        } else {
            Seq::empty()
        }
    }

    /// The rows in the window, or one empty row for a transcript without
    /// lines.
    pub open spec fn visible_rows(self) -> Seq<Seq<StyledSpanV>> {
        if self.buffer.lines.len() == 0 {
            seq![seq![StyledSpanV { text: Seq::empty(), style: SpanStyle::plain() }]]
        } else {
            self.rows_between(self.buffer.window_start(), self.buffer.window_end())
        }
    }
}

fn indicator_text(kind: InlineMessageKind) -> (r: Option<String>)
    ensures
        opt_text(r) == indicator_of(kind),
{
    match kind {
        InlineMessageKind::User => Some(USER_PREFIX.to_owned()),
        InlineMessageKind::Agent | InlineMessageKind::Info => None,
        _ => Some(STATUS_PREFIX.to_owned()),
    }
}

impl Transcript {
    /// A widget without lines.
    pub fn new(theme: InlineTheme) -> (r: Transcript)
        ensures
            r@ == (TranscriptV {
                buffer: TranscriptBufferV {
                    lines: Seq::empty(),
                    scroll_offset: 0,
                    viewport_height: 1,
                },
                theme,
            }),
    {
        Transcript { buffer: TranscriptBuffer::new(), theme }
    }

    pub fn set_theme(&mut self, theme: InlineTheme)
        ensures
            final(self)@ == (TranscriptV { theme, ..old(self)@ }),
    {
        self.theme = theme;
    }

    /// Takes labels and leaves them unused: this widget shows marks.
    pub fn set_labels(&mut self, agent: Option<String>, user: Option<String>)
        ensures
            final(self)@ == old(self)@,
    {
    }

    /// Adds a line at the end.
    pub fn push_line(&mut self, kind: InlineMessageKind, segments: Vec<InlineSegment>)
        ensures
            final(self)@ == (TranscriptV {
                buffer: old(self)@.buffer.pushed(kind, segment_views(segments@)),
                ..old(self)@
            }),
    {
        self.buffer.push_line(kind, segments);
    }

    /// Adds streamed text.
    pub fn append_inline(&mut self, kind: InlineMessageKind, segment: InlineSegment)
        ensures
            final(self)@ == (TranscriptV {
                buffer: old(self)@.buffer.appended_inline(kind, segment@),
                ..old(self)@
            }),
    {
        self.buffer.append_inline(kind, segment);
    }

    /// Replaces the last `count` lines.
    pub fn replace_last(
        &mut self,
        count: usize,
        kind: InlineMessageKind,
        lines: Vec<Vec<InlineSegment>>,
    )
        ensures
            final(self)@ == (TranscriptV {
                buffer: old(self)@.buffer.replaced_last(count, kind, segment_lists(lines@)),
                ..old(self)@
            }),
    {
        self.buffer.replace_last(count, kind, lines);
    }

    /// Scrolls by a line or by a page.
    pub fn scroll(&mut self, action: ScrollAction)
        ensures
            final(self)@ == (TranscriptV {
                buffer: old(self)@.buffer.scrolled(action),
                ..old(self)@
            }),
    {
        self.buffer.scroll(action);
    }

    fn fallback_color(&self, kind: InlineMessageKind) -> (r: Option<InlineColor>)
        ensures
            r == plain_fallback(self.theme, kind),
    {
        match kind {
            InlineMessageKind::Agent | InlineMessageKind::Policy => first_color(
                self.theme.primary,
                self.theme.foreground,
            ),
            InlineMessageKind::User => first_color(self.theme.secondary, self.theme.foreground),
            _ => self.theme.foreground,
        }
    }

    /// Takes the height of the area it is drawn in, and gives the rows to
    /// draw there.
    pub fn render(&mut self, height: usize) -> (r: Vec<Vec<StyledSpan>>)
        ensures
            final(self)@ == (TranscriptV {
                buffer: old(self)@.buffer.with_viewport(height),
                ..old(self)@
            }),
            crate::ui::tui::style::row_views(r@) == final(self)@.visible_rows(),
    {
        self.buffer.set_viewport_height(height);
        if self.buffer.lines.len() == 0 {
            return blank_rows();
        }
        let (start, end) = self.buffer.visible_range();
        let mut rows: Vec<Vec<StyledSpan>> = Vec::new();
        assert(crate::ui::tui::style::row_views(rows@) =~= Seq::empty());
        let mut i: usize = end;
        while i > start
            invariant
                start <= i <= end,
                end <= self.buffer.lines@.len(),
                self@.buffer.lines == line_views(self.buffer.lines@),
                (seq_reversed(crate::ui::tui::style::row_views(rows@))) == self@.rows_between(
                    i as int,
                    end as int,
                ),
            decreases i,
        {
            i -= 1;
            let line = &self.buffer.lines[i];
            let ghost held = crate::ui::tui::style::row_views(rows@);
            let row = render_line(
                line,
                indicator_text(line.kind),
                self.fallback_color(line.kind),
                self.theme.foreground,
            );
            rows.push(row);
            assert(crate::ui::tui::style::row_views(rows@) =~= held.push(span_views(row@)));
            assert(seq_reversed(held.push(span_views(row@))) =~= seq![span_views(row@)]
                + seq_reversed(held));
        }
        reverse_rows(rows)
    }
}

} // verus!
