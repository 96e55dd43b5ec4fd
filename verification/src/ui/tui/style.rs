//! Styled text as plain values: what a renderer needs to draw a run of
//! text.

use crate::ui::tui::types::{InlineColor, InlineTextStyle};
use vstd::prelude::*;

verus! {

/// How a span is drawn.
#[derive(Clone, Copy, Debug, PartialEq, Eq, Structural)]
pub struct SpanStyle {
    pub fg: Option<InlineColor>,
    pub bold: bool,
    pub italic: bool,
    pub dim: bool,
    pub reversed: bool,
}

impl SpanStyle {
    /// The style that changes nothing.
    pub open spec fn plain() -> SpanStyle {
        SpanStyle { fg: None, bold: false, italic: false, dim: false, reversed: false }
    }

    /// The style of an inline text style: its colour, or else the
    /// fallback, and its weight and slant.
    pub open spec fn of_inline(style: InlineTextStyle, fallback: Option<InlineColor>)
        -> SpanStyle {
        SpanStyle {
            fg: if style.color is Some {
                style.color
            } else {
                fallback
            },
            bold: style.bold,
            italic: style.italic,
            dim: false,
            reversed: false,
        }
    }

    /// The style that changes nothing.
    pub fn new() -> (r: SpanStyle)
        ensures
            r == SpanStyle::plain(),
    {
        SpanStyle { fg: None, bold: false, italic: false, dim: false, reversed: false }
    }

    /// The style of an inline text style.
    pub fn from_inline(style: &InlineTextStyle, fallback: Option<InlineColor>) -> (r: SpanStyle)
        ensures
            r == SpanStyle::of_inline(*style, fallback),
    {
        SpanStyle {
            fg: if style.color.is_some() {
                style.color
            } else {
                fallback
            },
            bold: style.bold,
            italic: style.italic,
            dim: false,
            reversed: false,
        }
    }

    pub fn with_fg(self, color: Option<InlineColor>) -> (r: SpanStyle)
        ensures
            r == (SpanStyle {
                fg: if color is Some {
                    color
                } else {
                    self.fg
                },
                ..self
            }),
    {
        SpanStyle {
            fg: if color.is_some() {
                color
            } else {
                self.fg
            },
            ..self
        }
    }

    pub fn with_bold(self) -> (r: SpanStyle)
        ensures
            r == (SpanStyle { bold: true, ..self }),
    {
        SpanStyle { bold: true, ..self }
    }

    pub fn with_dim(self) -> (r: SpanStyle)
        ensures
            r == (SpanStyle { dim: true, ..self }),
    {
        SpanStyle { dim: true, ..self }
    }

    pub fn with_reversed(self) -> (r: SpanStyle)
        ensures
            r == (SpanStyle { reversed: true, ..self }),
    {
        SpanStyle { reversed: true, ..self }
    }
}

/// The first of two colours that is there.
pub open spec fn color_or(a: Option<InlineColor>, b: Option<InlineColor>) -> Option<InlineColor> {
    if a is Some {
        a
    } else {
        b
    }
}

/// The first of two colours that is there.
pub fn first_color(a: Option<InlineColor>, b: Option<InlineColor>) -> (r: Option<InlineColor>)
    ensures
        r == color_or(a, b),
{
    if a.is_some() {
        a
    } else {
        b
    }
}

/// Model of a [`StyledSpan`].
pub struct StyledSpanV {
    pub text: Seq<char>,
    pub style: SpanStyle,
}

/// A run of text with the style it is drawn in.
#[derive(Debug)]
pub struct StyledSpan {
    pub text: String,
    pub style: SpanStyle,
}

impl View for StyledSpan {
    type V = StyledSpanV;

    open spec fn view(&self) -> StyledSpanV {
        StyledSpanV { text: self.text@, style: self.style }
    }
}

impl StyledSpan {
    pub fn styled(text: String, style: SpanStyle) -> (r: StyledSpan)
        ensures
            r@ == (StyledSpanV { text: text@, style }),
    {
        StyledSpan { text, style }
    }

    /// A span in the style that changes nothing.
    pub fn raw(text: String) -> (r: StyledSpan)
        ensures
            r@ == (StyledSpanV { text: text@, style: SpanStyle::plain() }),
    {
        StyledSpan { text, style: SpanStyle::new() }
    }

    /// A copy of this span.
    pub fn duplicate(&self) -> (r: StyledSpan)
        ensures
            r@ == self@,
    {
        StyledSpan { text: self.text.clone(), style: self.style }
    }
}

/// The models of a sequence of spans.
pub open spec fn span_views(spans: Seq<StyledSpan>) -> Seq<StyledSpanV> {
    Seq::new(spans.len(), |i: int| spans[i]@)
}

/// The models of a sequence of rows.
pub open spec fn row_views(rows: Seq<Vec<StyledSpan>>) -> Seq<Seq<StyledSpanV>> {
    Seq::new(rows.len(), |i: int| span_views(rows[i]@))
}

/// Copies a row.
pub fn duplicate_row(row: &Vec<StyledSpan>) -> (r: Vec<StyledSpan>)
    ensures
        span_views(r@) == span_views(row@),
{
    let mut out: Vec<StyledSpan> = Vec::new();
    let mut i: usize = 0;
    while i < row.len()
        invariant
            i <= row.len(),
            out@.len() == i,
            forall|k: int| 0 <= k < i ==> out@[k]@ == row@[k]@,
        decreases row.len() - i,
    {
        out.push(row[i].duplicate());
        i += 1;
    }
    assert(span_views(out@) =~= span_views(row@));
    out
}

/// Copies rows.
pub fn duplicate_rows(rows: &Vec<Vec<StyledSpan>>) -> (r: Vec<Vec<StyledSpan>>)
    ensures
        row_views(r@) == row_views(rows@),
{
    let mut out: Vec<Vec<StyledSpan>> = Vec::new();
    let mut i: usize = 0;
    while i < rows.len()
        invariant
            i <= rows.len(),
            out@.len() == i,
            forall|k: int| 0 <= k < i ==> span_views(out@[k]@) == span_views(rows@[k]@),
        decreases rows.len() - i,
    {
        out.push(duplicate_row(&rows[i]));
        i += 1;
    }
    assert(row_views(out@) =~= row_views(rows@));
    out
}

/// The text of a row: the texts of its spans, one after another, from span
/// `i` on.
pub open spec fn row_text_from(row: Seq<StyledSpanV>, i: int) -> Seq<char>
    decreases row.len() - i,
{
    if 0 <= i < row.len() {
        row[i].text + row_text_from(row, i + 1)
    } else {
        Seq::empty()
    }
}

/// The text of a row.
pub open spec fn row_text(row: Seq<StyledSpanV>) -> Seq<char> {
    row_text_from(row, 0)
}

} // verus!
