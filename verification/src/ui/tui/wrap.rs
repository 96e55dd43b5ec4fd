//! Wrapping of styled text to a width, by grapheme cluster and display
//! width.

use crate::text::text_views;
use crate::ui::tui::style::{row_views, span_views, SpanStyle, StyledSpan, StyledSpanV};
use vstd::prelude::*;

verus! {

/// The extended grapheme clusters of a text, in order.
pub uninterp spec fn graphemes_of(text: Seq<char>) -> Seq<Seq<char>>;

/// The number of terminal columns a text takes.
pub uninterp spec fn display_width_of(text: Seq<char>) -> usize;

/// The texts from index `i` on, one after another.
pub open spec fn concat_from(parts: Seq<Seq<char>>, i: int) -> Seq<char>
    decreases parts.len() - i,
{
    if 0 <= i < parts.len() {
        parts[i] + concat_from(parts, i + 1)
    } else {
        Seq::empty()
    }
}

/// `unicode_segmentation::UnicodeSegmentation::graphemes` with extended
/// clusters: the clusters of the text, in order. They are consecutive
/// pieces of the text that cover it, none of them empty; which pieces
/// they are is a function of the text alone, which this library only
/// names.
#[verifier::external_body]
pub(crate) fn graphemes(text: &str) -> (r: Vec<String>)
    ensures
        text_views(r@) == graphemes_of(text@),
        concat_from(text_views(r@), 0) == text@,
        forall|i: int| 0 <= i < r@.len() ==> (#[trigger] r@[i])@.len() > 0,
{
    unicode_segmentation::UnicodeSegmentation::graphemes(text, true).map(|g| g.to_string()).collect()
}

/// `unicode_width::UnicodeWidthStr::width`: the number of columns the
/// text takes, a function of the text alone, which this library only
/// names.
#[verifier::external_body]
pub(crate) fn display_width(text: &str) -> (r: usize)
    ensures
        r == display_width_of(text@),
{
    unicode_width::UnicodeWidthStr::width(text)
}

/// The rows wrapped so far, the row under way, and the columns it takes.
pub struct WrapV {
    pub rows: Seq<Seq<StyledSpanV>>,
    pub current: Seq<StyledSpanV>,
    pub width: nat,
}

impl WrapV {
    pub open spec fn start() -> WrapV {
        WrapV { rows: Seq::empty(), current: Seq::empty(), width: 0 }
    }

    /// The row under way is closed and a new one begins.
    pub open spec fn flush(self) -> WrapV {
        WrapV { rows: self.rows.push(self.current), current: Seq::empty(), width: 0 }
    }

    /// A cluster joins the row under way: it grows the last span where
    /// that has the same style, else it starts a span.
    pub open spec fn put(self, style: SpanStyle, cluster: Seq<char>, width: nat) -> WrapV {
        if self.current.len() > 0 && self.current.last().style == style {
            WrapV {
                current: self.current.update(
                    self.current.len() - 1,
                    StyledSpanV { text: self.current.last().text + cluster, style },
                ),
                width: self.width + width,
                ..self
            }
        } else {
            WrapV {
                current: self.current.push(StyledSpanV { text: cluster, style }),
                width: self.width + width,
                ..self
            }
        }
    }

    /// One cluster is taken: a cluster with a line feed closes the row; a
    /// cluster without width, or wider than a row, is left out; a cluster
    /// that does not fit closes the row first, unless the row is empty.
    pub open spec fn cluster(self, style: SpanStyle, cluster: Seq<char>, max: usize) -> WrapV {
        let w = display_width_of(cluster);
        if cluster.contains('\n') {
            self.flush()
        } else if w == 0 || w > max {
            self
        } else if self.width + w > max && self.width > 0 {
            self.flush().put(style, cluster, w as nat)
        } else {
            self.put(style, cluster, w as nat)
        }
    }

    /// The clusters from index `i` on are taken.
    pub open spec fn clusters_from(
        self,
        style: SpanStyle,
        clusters: Seq<Seq<char>>,
        i: int,
        max: usize,
    ) -> WrapV
        decreases clusters.len() - i,
    {
        if 0 <= i < clusters.len() {
            self.cluster(style, clusters[i], max).clusters_from(style, clusters, i + 1, max)
        } else {
            self
        }
    }

    /// A span is taken, cluster by cluster.
    pub open spec fn span(self, span: StyledSpanV, max: usize) -> WrapV {
        self.clusters_from(span.style, graphemes_of(span.text), 0, max)
    }

    /// The spans from index `i` on are taken.
    pub open spec fn spans_from(self, spans: Seq<StyledSpanV>, i: int, max: usize) -> WrapV
        decreases spans.len() - i,
    {
        if 0 <= i < spans.len() {
            self.span(spans[i], max).spans_from(spans, i + 1, max)
        } else {
            self
        }
    }

    /// The rows in the end: the row under way is the last one, unless it
    /// is empty and there are rows before it.
    pub open spec fn finish(self) -> Seq<Seq<StyledSpanV>> {
        if self.current.len() == 0 {
            if self.rows.len() == 0 {
                seq![Seq::empty()]
            } else {
                self.rows
            }
        } else {
            self.rows.push(self.current)
        }
    }
}

/// A line of spans wrapped to `max` columns: at least one row, and one
/// empty row for no width at all.
pub open spec fn wrapped(spans: Seq<StyledSpanV>, max: usize) -> Seq<Seq<StyledSpanV>> {
    if max == 0 {
        seq![Seq::empty()]
    } else {
        WrapV::start().spans_from(spans, 0, max).finish()
    }
}

/// Wrapping yields at least one row.
pub proof fn lemma_wrapped_is_not_empty(spans: Seq<StyledSpanV>, max: usize)
    ensures
        wrapped(spans, max).len() >= 1,
{
}

/// The wrap state that three exec values stand for.
pub open spec fn wrap_of(rows: Vec<Vec<StyledSpan>>, current: Vec<StyledSpan>, width: usize)
    -> WrapV {
    WrapV { rows: row_views(rows@), current: span_views(current@), width: width as nat }
}

fn has_line_feed(text: &str) -> (r: bool)
    ensures
        r == text@.contains('\n'),
{
    let chars = crate::text::chars_of(text);
    let mut i: usize = 0;
    while i < chars.len()
        invariant
            i <= chars.len(),
            chars@ == text@,
            forall|k: int| 0 <= k < i ==> chars@[k] != '\n',
        decreases chars.len() - i,
    {
        if chars[i] == '\n' {
            return true;
        }
        i += 1;
    }
    false
}

fn flush_row(rows: &mut Vec<Vec<StyledSpan>>, current: &mut Vec<StyledSpan>, width: &mut usize)
    ensures
        wrap_of(*final(rows), *final(current), *final(width)) == wrap_of(
            *old(rows),
            *old(current),
            *old(width),
        ).flush(),
{
    let ghost before = row_views(rows@);
    let ghost row = span_views(current@);
    let mut finished: Vec<StyledSpan> = Vec::new();
    std::mem::swap(&mut finished, current);
    rows.push(finished);
    *width = 0;
    assert(row_views(rows@) =~= before.push(row));
    assert(span_views(current@) =~= Seq::empty());
}

fn put_cluster(current: &mut Vec<StyledSpan>, width: &mut usize, style: SpanStyle, cluster: &str, w: usize)
    requires
        *old(width) + w <= usize::MAX,
    ensures
        *final(width) == *old(width) + w,
        span_views(final(current)@) == (WrapV {
            rows: Seq::empty(),
            current: span_views(old(current)@),
            width: *old(width) as nat,
        }).put(style, cluster@, w as nat).current,
{
    let ghost before = span_views(current@);
    let n = current.len();
    if n > 0 && current[n - 1].style == style {
        let joined = crate::text::concat(current[n - 1].text.as_str(), cluster);
        current.set(n - 1, StyledSpan { text: joined, style });
        assert(span_views(current@) =~= before.update(
            n - 1,
            StyledSpanV { text: before.last().text + cluster@, style },
        ));
    } else {
        current.push(StyledSpan { text: cluster.to_owned(), style });
        assert(span_views(current@) =~= before.push(StyledSpanV { text: cluster@, style }));
    }
    *width = *width + w;
}

/// Wraps a line of spans to `max_width` columns.
pub fn wrap_line(line: &Vec<StyledSpan>, max_width: usize) -> (r: Vec<Vec<StyledSpan>>)
    ensures
        row_views(r@) == wrapped(span_views(line@), max_width),
        r@.len() >= 1,
{
    let mut rows: Vec<Vec<StyledSpan>> = Vec::new();
    if max_width == 0 {
        let blank: Vec<StyledSpan> = Vec::new();
        assert(span_views(blank@) =~= Seq::empty());
        rows.push(blank);
        assert(row_views(rows@) =~= seq![Seq::<StyledSpanV>::empty()]);
        return rows;
    }
    let mut current: Vec<StyledSpan> = Vec::new();
    let mut width: usize = 0;
    let ghost spans = span_views(line@);
    assert(row_views(rows@) =~= Seq::empty());
    assert(span_views(current@) =~= Seq::empty());
    let mut i: usize = 0;
    while i < line.len()
        invariant
            i <= line.len(),
            max_width > 0,
            width <= max_width,
            spans == span_views(line@),
            wrap_of(rows, current, width).spans_from(spans, i as int, max_width)
                == WrapV::start().spans_from(spans, 0, max_width),
        decreases line.len() - i,
    {
        let style = line[i].style;
        let clusters = graphemes(line[i].text.as_str());
        let ghost cs = text_views(clusters@);
        let ghost goal = wrap_of(rows, current, width).span(spans[i as int], max_width);
        let mut k: usize = 0;
        while k < clusters.len()
            invariant
                k <= clusters.len(),
                max_width > 0,
                width <= max_width,
                cs == text_views(clusters@),
                wrap_of(rows, current, width).clusters_from(style, cs, k as int, max_width)
                    == goal,
            decreases clusters.len() - k,
        {
            let cluster = clusters[k].as_str();
            if has_line_feed(cluster) {
                flush_row(&mut rows, &mut current, &mut width);
            } else {
                let w = display_width(cluster);
                if w == 0 || w > max_width {
                } else {
                    if w > max_width - width && width > 0 {
                        flush_row(&mut rows, &mut current, &mut width);
                    }
                    put_cluster(&mut current, &mut width, style, cluster, w);
                }
            }
            k += 1;
        }
        i += 1;
    }
    if current.len() == 0 {
        if rows.len() == 0 {
            let blank: Vec<StyledSpan> = Vec::new();
            assert(span_views(blank@) =~= Seq::empty());
            rows.push(blank);
            assert(row_views(rows@) =~= seq![Seq::<StyledSpanV>::empty()]);
        }
    } else {
        let ghost before = row_views(rows@);
        let ghost row = span_views(current@);
        rows.push(current);
        assert(row_views(rows@) =~= before.push(row));
    }
    rows
}

} // verus!
