//! The values that pass between the session and its owner.

use crate::config::constants::{
    HEADER_LANGUAGES_PREFIX, HEADER_MCP_PREFIX, HEADER_MODEL_PREFIX, HEADER_MODE_INLINE,
    HEADER_PROVIDER_PREFIX, HEADER_REASONING_PREFIX, HEADER_TOOLS_PREFIX, HEADER_TRUST_PREFIX,
    HEADER_UNKNOWN_PLACEHOLDER, PACKAGE_VERSION,
};
use crate::llm::provider::{duplicate_opt_text, opt_text};
use crate::text::concat;
use vstd::prelude::*;

verus! {

/// Model of an [`InlineHeaderContext`].
pub struct InlineHeaderContextV {
    pub provider: Seq<char>,
    pub model: Seq<char>,
    pub version: Seq<char>,
    pub mode: Seq<char>,
    pub reasoning: Seq<char>,
    pub workspace_trust: Seq<char>,
    pub tools: Seq<char>,
    pub languages: Seq<char>,
    pub mcp: Seq<char>,
}

/// What the header of the session shows.
#[derive(Debug)]
pub struct InlineHeaderContext {
    pub provider: String,
    pub model: String,
    pub version: String,
    pub mode: String,
    pub reasoning: String,
    pub workspace_trust: String,
    pub tools: String,
    pub languages: String,
    pub mcp: String,
}

impl View for InlineHeaderContext {
    type V = InlineHeaderContextV;

    open spec fn view(&self) -> InlineHeaderContextV {
        InlineHeaderContextV {
            provider: self.provider@,
            model: self.model@,
            version: self.version@,
            mode: self.mode@,
            reasoning: self.reasoning@,
            workspace_trust: self.workspace_trust@,
            tools: self.tools@,
            languages: self.languages@,
            mcp: self.mcp@,
        }
    }
}

impl InlineHeaderContextV {
    /// The header of a session of which nothing is known yet: every entry
    /// is its label followed by a placeholder.
    pub open spec fn unknown() -> InlineHeaderContextV {
        InlineHeaderContextV {
            provider: HEADER_PROVIDER_PREFIX@ + HEADER_UNKNOWN_PLACEHOLDER@,
            model: HEADER_MODEL_PREFIX@ + HEADER_UNKNOWN_PLACEHOLDER@,
            version: PACKAGE_VERSION@,
            mode: HEADER_MODE_INLINE@,
            reasoning: HEADER_REASONING_PREFIX@ + HEADER_UNKNOWN_PLACEHOLDER@,
            workspace_trust: HEADER_TRUST_PREFIX@ + HEADER_UNKNOWN_PLACEHOLDER@,
            tools: HEADER_TOOLS_PREFIX@ + HEADER_UNKNOWN_PLACEHOLDER@,
            languages: HEADER_LANGUAGES_PREFIX@ + HEADER_UNKNOWN_PLACEHOLDER@,
            mcp: HEADER_MCP_PREFIX@ + HEADER_UNKNOWN_PLACEHOLDER@,
        }
    }
}

impl Default for InlineHeaderContext {
    fn default() -> (r: Self)
        ensures
            r@ == InlineHeaderContextV::unknown(),
    {
        InlineHeaderContext {
            provider: concat(HEADER_PROVIDER_PREFIX, HEADER_UNKNOWN_PLACEHOLDER),
            model: concat(HEADER_MODEL_PREFIX, HEADER_UNKNOWN_PLACEHOLDER),
            version: PACKAGE_VERSION.to_owned(),
            mode: HEADER_MODE_INLINE.to_owned(),
            reasoning: concat(HEADER_REASONING_PREFIX, HEADER_UNKNOWN_PLACEHOLDER),
            workspace_trust: concat(HEADER_TRUST_PREFIX, HEADER_UNKNOWN_PLACEHOLDER),
            tools: concat(HEADER_TOOLS_PREFIX, HEADER_UNKNOWN_PLACEHOLDER),
            languages: concat(HEADER_LANGUAGES_PREFIX, HEADER_UNKNOWN_PLACEHOLDER),
            mcp: concat(HEADER_MCP_PREFIX, HEADER_UNKNOWN_PLACEHOLDER),
        }
    }
}

impl InlineHeaderContext {
    /// A copy of this header.
    pub fn duplicate(&self) -> (r: InlineHeaderContext)
        ensures
            r@ == self@,
    {
        InlineHeaderContext {
            provider: self.provider.clone(),
            model: self.model.clone(),
            version: self.version.clone(),
            mode: self.mode.clone(),
            reasoning: self.reasoning.clone(),
            workspace_trust: self.workspace_trust.clone(),
            tools: self.tools.clone(),
            languages: self.languages.clone(),
            mcp: self.mcp.clone(),
        }
    }
}

/// A terminal colour: one of the sixteen named colours by its number, one
/// of the 256 indexed colours, or red, green and blue.
#[derive(Clone, Copy, Debug, PartialEq, Eq, Structural)]
pub enum InlineColor {
    Ansi(u8),
    Ansi256(u8),
    Rgb(u8, u8, u8),
}

/// How a run of text looks.
#[derive(Clone, Copy, Debug, PartialEq, Eq, Structural)]
pub struct InlineTextStyle {
    pub color: Option<InlineColor>,
    pub bold: bool,
    pub italic: bool,
}

impl InlineTextStyle {
    /// The plain style: no colour, neither bold nor italic.
    pub open spec fn plain() -> InlineTextStyle {
        InlineTextStyle { color: None, bold: false, italic: false }
    }

    /// This style with `fallback` as its colour where it has none.
    pub fn merge_color(self, fallback: Option<InlineColor>) -> (r: InlineTextStyle)
        ensures
            r == (InlineTextStyle {
                color: if self.color is None {
                    fallback
                } else {
                    self.color
                },
                ..self
            }),
    {
        let mut style = self;
        if style.color.is_none() {
            style.color = fallback;
        }
        style
    }
}

impl Default for InlineTextStyle {
    fn default() -> (r: Self)
        ensures
            r == InlineTextStyle::plain(),
    {
        InlineTextStyle { color: None, bold: false, italic: false }
    }
}

/// Model of an [`InlineSegment`].
pub struct InlineSegmentV {
    pub text: Seq<char>,
    pub style: InlineTextStyle,
}

/// A run of text in one style.
#[derive(Debug)]
pub struct InlineSegment {
    pub text: String,
    pub style: InlineTextStyle,
}

impl View for InlineSegment {
    type V = InlineSegmentV;

    open spec fn view(&self) -> InlineSegmentV {
        InlineSegmentV { text: self.text@, style: self.style }
    }
}

impl InlineSegment {
    /// A copy of this segment.
    pub fn duplicate(&self) -> (r: InlineSegment)
        ensures
            r@ == self@,
    {
        InlineSegment { text: self.text.clone(), style: self.style }
    }
}

impl Default for InlineSegment {
    fn default() -> (r: Self)
        ensures
            r@ == (InlineSegmentV { text: Seq::empty(), style: InlineTextStyle::plain() }),
    {
        InlineSegment {
            text: String::new(),
            style: InlineTextStyle { color: None, bold: false, italic: false },
        }
    }
}

/// The models of a sequence of segments.
pub open spec fn segment_views(items: Seq<InlineSegment>) -> Seq<InlineSegmentV> {
    Seq::new(items.len(), |i: int| items[i]@)
}

/// Copies a list of segments.
pub fn duplicate_segments(items: &Vec<InlineSegment>) -> (r: Vec<InlineSegment>)
    ensures
        segment_views(r@) == segment_views(items@),
{
    let mut out: Vec<InlineSegment> = Vec::new();
    let mut i: usize = 0;
    while i < items.len()
        invariant
            i <= items.len(),
            out@.len() == i,
            forall|k: int| 0 <= k < i ==> out@[k]@ == items@[k]@,
        decreases items.len() - i,
    {
        out.push(items[i].duplicate());
        i += 1;
    }
    assert(segment_views(out@) =~= segment_views(items@));
    out
}

/// The colours of the session.
#[derive(Clone, Copy, Debug, PartialEq, Eq, Structural)]
pub struct InlineTheme {
    pub foreground: Option<InlineColor>,
    pub primary: Option<InlineColor>,
    pub secondary: Option<InlineColor>,
    pub tool_accent: Option<InlineColor>,
    pub tool_body: Option<InlineColor>,
}

impl Default for InlineTheme {
    fn default() -> (r: Self)
        ensures
            r == (InlineTheme {
                foreground: None,
                primary: None,
                secondary: None,
                tool_accent: None,
                tool_body: None,
            }),
    {
        InlineTheme {
            foreground: None,
            primary: None,
            secondary: None,
            tool_accent: None,
            tool_body: None,
        }
    }
}

/// Who a line of the transcript comes from.
#[derive(Clone, Copy, Debug, PartialEq, Eq, Structural)]
pub enum InlineMessageKind {
    Agent,
    Error,
    Info,
    Policy,
    Pty,
    Tool,
    User,
}

/// What the owner of a session asks of it.
#[derive(Debug)]
#[allow(inconsistent_fields)]
pub enum InlineCommand {
    AppendLine { kind: InlineMessageKind, segments: Vec<InlineSegment> },
    Inline { kind: InlineMessageKind, segment: InlineSegment },
    ReplaceLast { count: usize, kind: InlineMessageKind, lines: Vec<Vec<InlineSegment>> },
    SetPrompt { prefix: String, style: InlineTextStyle },
    SetPlaceholder { hint: Option<String>, style: Option<InlineTextStyle> },
    SetMessageLabels { agent: Option<String>, user: Option<String> },
    SetHeaderContext { context: InlineHeaderContext },
    SetTheme { theme: InlineTheme },
    SetCursorVisible(bool),
    SetInputEnabled(bool),
    SetInput(String),
    ClearInput,
    ForceRedraw,
    ShowModal { title: String, lines: Vec<String> },
    CloseModal,
    Shutdown,
}

/// Model of an [`InlineEvent`].
pub enum InlineEventV {
    Submit(Seq<char>),
    Cancel,
    Exit,
    Interrupt,
    ScrollLineUp,
    ScrollLineDown,
    ScrollPageUp,
    ScrollPageDown,
}

/// What a session tells its owner.
#[derive(Debug)]
pub enum InlineEvent {
    Submit(String),
    Cancel,
    Exit,
    Interrupt,
    ScrollLineUp,
    ScrollLineDown,
    ScrollPageUp,
    ScrollPageDown,
}

impl View for InlineEvent {
    type V = InlineEventV;

    open spec fn view(&self) -> InlineEventV {
        match self {
            InlineEvent::Submit(text) => InlineEventV::Submit(text@),
            InlineEvent::Cancel => InlineEventV::Cancel,
            InlineEvent::Exit => InlineEventV::Exit,
            InlineEvent::Interrupt => InlineEventV::Interrupt,
            InlineEvent::ScrollLineUp => InlineEventV::ScrollLineUp,
            InlineEvent::ScrollLineDown => InlineEventV::ScrollLineDown,
            InlineEvent::ScrollPageUp => InlineEventV::ScrollPageUp,
            InlineEvent::ScrollPageDown => InlineEventV::ScrollPageDown,
        }
    }
}

/// The model of an optional event.
pub open spec fn opt_event_view(event: Option<InlineEvent>) -> Option<InlineEventV> {
    match event {
        Some(e) => Some(e@),
        None => None,
    }
}

/// The label that stays when an optional label is empty.
pub open spec fn nonempty_label(label: Option<Seq<char>>) -> Option<Seq<char>> {
    match label {
        Some(l) => if l.len() == 0 {
            None
        } else {
            Some(l)
        },
        None => None,
    }
}

/// Drops a label that is empty.
pub fn filter_label(label: Option<String>) -> (r: Option<String>)
    ensures
        opt_text(r) == nonempty_label(opt_text(label)),
{
    match label {
        Some(l) => if l.as_str().is_empty() {
            None
        } else {
            Some(l)
        },
        None => None,
    }
}

/// The segments of an appended line: a line without segments gets one
/// empty segment.
pub fn append_line_segments(segments: Vec<InlineSegment>) -> (r: Vec<InlineSegment>)
    ensures
        segment_views(r@) == if segments@.len() == 0 {
            seq![InlineSegmentV { text: Seq::empty(), style: InlineTextStyle::plain() }]
        } else {
            segment_views(segments@)
        },
{
    if segments.len() == 0 {
        let mut out: Vec<InlineSegment> = Vec::new();
        out.push(InlineSegment::default());
        assert(segment_views(out@) =~= seq![
            InlineSegmentV { text: Seq::empty(), style: InlineTextStyle::plain() },
        ]);
        out
    } else {
        segments
    }
}

/// Copies an optional label.
pub fn duplicate_label(label: &Option<String>) -> (r: Option<String>)
    ensures
        opt_text(r) == opt_text(*label),
{
    duplicate_opt_text(label)
}

/// Model of an [`InlineCommand`].
#[allow(inconsistent_fields)]
pub enum InlineCommandV {
    AppendLine { kind: InlineMessageKind, segments: Seq<InlineSegmentV> },
    Inline { kind: InlineMessageKind, segment: InlineSegmentV },
    ReplaceLast { count: usize, kind: InlineMessageKind, lines: Seq<Seq<InlineSegmentV>> },
    SetPrompt { prefix: Seq<char>, style: InlineTextStyle },
    SetPlaceholder { hint: Option<Seq<char>>, style: Option<InlineTextStyle> },
    SetMessageLabels { agent: Option<Seq<char>>, user: Option<Seq<char>> },
    SetHeaderContext { context: InlineHeaderContextV },
    SetTheme { theme: InlineTheme },
    SetCursorVisible(bool),
    SetInputEnabled(bool),
    SetInput(Seq<char>),
    ClearInput,
    ForceRedraw,
    ShowModal { title: Seq<char>, lines: Seq<Seq<char>> },
    CloseModal,
    Shutdown,
}

impl View for InlineCommand {
    type V = InlineCommandV;

    open spec fn view(&self) -> InlineCommandV {
        match self {
            InlineCommand::AppendLine { kind, segments } => InlineCommandV::AppendLine {
                kind: *kind,
                segments: segment_views(segments@),
            },
            InlineCommand::Inline { kind, segment } => InlineCommandV::Inline {
                kind: *kind,
                segment: segment@,
            },
            InlineCommand::ReplaceLast { count, kind, lines } => InlineCommandV::ReplaceLast {
                count: *count,
                kind: *kind,
                lines: Seq::new(lines@.len(), |i: int| segment_views(lines@[i]@)),
            },
            InlineCommand::SetPrompt { prefix, style } => InlineCommandV::SetPrompt {
                prefix: prefix@,
                style: *style,
            },
            InlineCommand::SetPlaceholder { hint, style } => InlineCommandV::SetPlaceholder {
                hint: opt_text(*hint),
                style: *style,
            },
            InlineCommand::SetMessageLabels { agent, user } => InlineCommandV::SetMessageLabels {
                agent: opt_text(*agent),
                user: opt_text(*user),
            },
            InlineCommand::SetHeaderContext { context } => InlineCommandV::SetHeaderContext {
                context: context@,
            },
            InlineCommand::SetTheme { theme } => InlineCommandV::SetTheme { theme: *theme },
            InlineCommand::SetCursorVisible(value) => InlineCommandV::SetCursorVisible(*value),
            InlineCommand::SetInputEnabled(value) => InlineCommandV::SetInputEnabled(*value),
            InlineCommand::SetInput(content) => InlineCommandV::SetInput(content@),
            InlineCommand::ClearInput => InlineCommandV::ClearInput,
            InlineCommand::ForceRedraw => InlineCommandV::ForceRedraw,
            InlineCommand::ShowModal { title, lines } => InlineCommandV::ShowModal {
                title: title@,
                lines: crate::text::text_views(lines@),
            },
            InlineCommand::CloseModal => InlineCommandV::CloseModal,
            InlineCommand::Shutdown => InlineCommandV::Shutdown,
        }
    }
}

} // verus!
