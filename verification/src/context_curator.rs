//! The context curator: each turn it selects the messages, files, ledger,
//! errors and tools that go to the model, within a token budget.

use crate::llm::provider::{duplicate_opt_text, opt_text};
use crate::text::{contains_spec, lowercase_of, str_contains, text_views};
use vstd::prelude::*;

pub use crate::config::context::ContextCurationConfig;

verus! {

/// What the conversation is about at the moment.
#[derive(Debug, Clone, Copy, PartialEq, Eq, Structural)]
pub enum ConversationPhase {
    /// Understanding the codebase.
    Exploration,
    /// Making changes.
    Implementation,
    /// Testing and verifying.
    Validation,
    /// Fixing errors.
    Debugging,
    /// Nothing known yet.
    Unknown,
}

impl Default for ConversationPhase {
    fn default() -> (r: Self)
        ensures
            r == ConversationPhase::Unknown,
    {
        ConversationPhase::Unknown
    }
}

/// Model of an [`ErrorContext`].
pub struct ErrorContextV {
    pub error_message: Seq<char>,
    pub tool_name: Option<Seq<char>>,
    pub resolution: Option<Seq<char>>,
    pub timestamp: u64,
}

/// An error that occurred, with the tool it came from and how it was
/// resolved. `timestamp` counts seconds since the Unix epoch.
#[derive(Debug)]
pub struct ErrorContext {
    pub error_message: String,
    pub tool_name: Option<String>,
    pub resolution: Option<String>,
    pub timestamp: u64,
}

impl View for ErrorContext {
    type V = ErrorContextV;

    open spec fn view(&self) -> ErrorContextV {
        ErrorContextV {
            error_message: self.error_message@,
            tool_name: opt_text(self.tool_name),
            resolution: opt_text(self.resolution),
            timestamp: self.timestamp,
        }
    }
}

impl ErrorContext {
    /// A copy of this error.
    pub fn duplicate(&self) -> (r: ErrorContext)
        ensures
            r@ == self@,
    {
        ErrorContext {
            error_message: self.error_message.clone(),
            tool_name: duplicate_opt_text(&self.tool_name),
            resolution: duplicate_opt_text(&self.resolution),
            timestamp: self.timestamp,
        }
    }
}

/// Model of a [`FileSummary`].
pub struct FileSummaryV {
    pub path: Seq<char>,
    pub size_lines: usize,
    pub last_modified: Option<u64>,
    pub summary: Seq<char>,
}

/// A file in compact form. `last_modified` counts seconds since the Unix
/// epoch.
#[derive(Debug)]
pub struct FileSummary {
    pub path: String,
    pub size_lines: usize,
    pub last_modified: Option<u64>,
    pub summary: String,
}

impl View for FileSummary {
    type V = FileSummaryV;

    open spec fn view(&self) -> FileSummaryV {
        FileSummaryV {
            path: self.path@,
            size_lines: self.size_lines,
            last_modified: self.last_modified,
            summary: self.summary@,
        }
    }
}

impl FileSummary {
    /// A copy of this summary.
    pub fn duplicate(&self) -> (r: FileSummary)
        ensures
            r@ == self@,
    {
        FileSummary {
            path: self.path.clone(),
            size_lines: self.size_lines,
            last_modified: self.last_modified,
            summary: self.summary.clone(),
        }
    }
}

/// Model of a [`ToolDefinition`].
pub struct ToolDefinitionV {
    pub name: Seq<char>,
    pub description: Seq<char>,
    pub estimated_tokens: usize,
}

/// A tool as the curator sees it: its name, what it does, and what its
/// description costs.
#[derive(Debug)]
pub struct ToolDefinition {
    pub name: String,
    pub description: String,
    pub estimated_tokens: usize,
}

impl View for ToolDefinition {
    type V = ToolDefinitionV;

    open spec fn view(&self) -> ToolDefinitionV {
        ToolDefinitionV {
            name: self.name@,
            description: self.description@,
            estimated_tokens: self.estimated_tokens,
        }
    }
}

impl ToolDefinition {
    /// A copy of this definition.
    pub fn duplicate(&self) -> (r: ToolDefinition)
        ensures
            r@ == self@,
    {
        ToolDefinition {
            name: self.name.clone(),
            description: self.description.clone(),
            estimated_tokens: self.estimated_tokens,
        }
    }
}

/// Model of a [`Message`].
pub struct MessageV {
    pub role: Seq<char>,
    pub content: Seq<char>,
    pub estimated_tokens: usize,
}

/// A message as the curator sees it.
#[derive(Debug)]
pub struct Message {
    pub role: String,
    pub content: String,
    pub estimated_tokens: usize,
}

impl View for Message {
    type V = MessageV;

    open spec fn view(&self) -> MessageV {
        MessageV {
            role: self.role@,
            content: self.content@,
            estimated_tokens: self.estimated_tokens,
        }
    }
}

impl Message {
    /// A copy of this message.
    pub fn duplicate(&self) -> (r: Message)
        ensures
            r@ == self@,
    {
        Message {
            role: self.role.clone(),
            content: self.content.clone(),
            estimated_tokens: self.estimated_tokens,
        }
    }
}

/// The models of a sequence of messages.
pub open spec fn message_views(items: Seq<Message>) -> Seq<MessageV> {
    Seq::new(items.len(), |i: int| items[i]@)
}

/// The models of a sequence of file summaries.
pub open spec fn file_views(items: Seq<FileSummary>) -> Seq<FileSummaryV> {
    Seq::new(items.len(), |i: int| items[i]@)
}

/// The models of a sequence of errors.
pub open spec fn error_views(items: Seq<ErrorContext>) -> Seq<ErrorContextV> {
    Seq::new(items.len(), |i: int| items[i]@)
}

/// The models of a sequence of tools.
pub open spec fn tool_views(items: Seq<ToolDefinition>) -> Seq<ToolDefinitionV> {
    Seq::new(items.len(), |i: int| items[i]@)
}

/// `a + b`, held at the largest `usize` where the sum would pass it.
pub open spec fn sat_add(a: usize, b: int) -> usize {
    if a + b > usize::MAX {
        usize::MAX
    } else if a + b < 0 {
        0
    } else {
        (a + b) as usize
    }
}

/// `a - b`, held at zero where the difference would pass it.
pub open spec fn sat_sub(a: usize, b: int) -> usize {
    if a - b < 0 {
        0
    } else if a - b > usize::MAX {
        usize::MAX
    } else {
        (a - b) as usize
    }
}

/// The estimate `start` after the tokens of the messages from index `i` on
/// are added to it, one by one.
pub open spec fn with_message_tokens(messages: Seq<MessageV>, i: int, start: usize) -> usize
    decreases messages.len() - i,
{
    if 0 <= i < messages.len() {
        with_message_tokens(messages, i + 1, sat_add(start, messages[i].estimated_tokens as int))
    } else {
        start
    }
}

/// The estimate `start` after the tokens of the tools from index `i` on are
/// added to it, one by one.
pub open spec fn with_tool_tokens(tools: Seq<ToolDefinitionV>, i: int, start: usize) -> usize
    decreases tools.len() - i,
{
    if 0 <= i < tools.len() {
        with_tool_tokens(tools, i + 1, sat_add(start, tools[i].estimated_tokens as int))
    } else {
        start
    }
}

/// Model of a [`CuratedContext`].
pub struct CuratedContextV {
    pub recent_messages: Seq<MessageV>,
    pub active_files: Seq<FileSummaryV>,
    pub ledger_summary: Option<Seq<char>>,
    pub recent_errors: Seq<ErrorContextV>,
    pub relevant_tools: Seq<ToolDefinitionV>,
    pub estimated_tokens: usize,
    pub phase: ConversationPhase,
}

/// What one turn hands to the model. `estimated_tokens` is a rough count
/// that stops at the largest `usize`.
#[derive(Debug)]
pub struct CuratedContext {
    pub recent_messages: Vec<Message>,
    pub active_files: Vec<FileSummary>,
    pub ledger_summary: Option<String>,
    pub recent_errors: Vec<ErrorContext>,
    pub relevant_tools: Vec<ToolDefinition>,
    pub estimated_tokens: usize,
    pub phase: ConversationPhase,
}

impl View for CuratedContext {
    type V = CuratedContextV;

    open spec fn view(&self) -> CuratedContextV {
        CuratedContextV {
            recent_messages: message_views(self.recent_messages@),
            active_files: file_views(self.active_files@),
            ledger_summary: opt_text(self.ledger_summary),
            recent_errors: error_views(self.recent_errors@),
            relevant_tools: tool_views(self.relevant_tools@),
            estimated_tokens: self.estimated_tokens,
            phase: self.phase,
        }
    }
}

impl CuratedContextV {
    /// The context that holds nothing.
    pub open spec fn empty() -> CuratedContextV {
        CuratedContextV {
            recent_messages: Seq::empty(),
            active_files: Seq::empty(),
            ledger_summary: None,
            recent_errors: Seq::empty(),
            relevant_tools: Seq::empty(),
            estimated_tokens: 0,
            phase: ConversationPhase::Unknown,
        }
    }

    /// The context after the last `count` of `messages` are added. The
    /// estimate grows by the tokens of the messages that are added.
    pub open spec fn add_recent_messages(self, messages: Seq<MessageV>, count: usize)
        -> CuratedContextV {
        let start = if messages.len() > count {
            messages.len() - count
        } else {
            0
        };
        let added = messages.subrange(start, messages.len() as int);
        CuratedContextV {
            recent_messages: self.recent_messages + added,
            estimated_tokens: with_message_tokens(added, 0, self.estimated_tokens),
            ..self
        }
    }

    /// The context after a file summary is added, at a quarter of a token
    /// per character of the summary.
    pub open spec fn add_file_context(self, summary: FileSummaryV) -> CuratedContextV {
        CuratedContextV {
            active_files: self.active_files.push(summary),
            estimated_tokens: sat_add(self.estimated_tokens, summary.summary.len() as int / 4),
            ..self
        }
    }

    /// The context after the ledger summary is set, at a quarter of a token
    /// per character.
    pub open spec fn add_ledger_summary(self, summary: Seq<char>) -> CuratedContextV {
        CuratedContextV {
            ledger_summary: Some(summary),
            estimated_tokens: sat_add(self.estimated_tokens, summary.len() as int / 4),
            ..self
        }
    }

    /// The context after an error is added, at a quarter of a token per
    /// character of its message.
    pub open spec fn add_error_context(self, error: ErrorContextV) -> CuratedContextV {
        CuratedContextV {
            recent_errors: self.recent_errors.push(error),
            estimated_tokens: sat_add(
                self.estimated_tokens,
                error.error_message.len() as int / 4,
            ),
            ..self
        }
    }

    /// The context after its tools are set, at the estimate of each.
    pub open spec fn add_tools(self, tools: Seq<ToolDefinitionV>) -> CuratedContextV {
        CuratedContextV {
            relevant_tools: tools,
            estimated_tokens: with_tool_tokens(tools, 0, self.estimated_tokens),
            ..self
        }
    }
}

fn quarter_of_chars(text: &str) -> (r: usize)
    ensures
        r == text@.len() as int / 4,
{
    text.unicode_len() / 4
}

fn saturating_sum(a: usize, b: usize) -> (r: usize)
    ensures
        r == sat_add(a, b as int),
{
    if b > usize::MAX - a {
        usize::MAX
    } else {
        a + b
    }
}

fn saturating_difference(a: usize, b: usize) -> (r: usize)
    ensures
        r == sat_sub(a, b as int),
{
    if b > a {
        0
    } else {
        a - b
    }
}

impl CuratedContext {
    /// The context that holds nothing.
    pub fn new() -> (r: CuratedContext)
        ensures
            r@ == CuratedContextV::empty(),
    {
        let r = CuratedContext {
            recent_messages: Vec::new(),
            active_files: Vec::new(),
            ledger_summary: None,
            recent_errors: Vec::new(),
            relevant_tools: Vec::new(),
            estimated_tokens: 0,
            phase: ConversationPhase::Unknown,
        };
        assert(r@.recent_messages =~= Seq::empty());
        assert(r@.active_files =~= Seq::empty());
        assert(r@.recent_errors =~= Seq::empty());
        assert(r@.relevant_tools =~= Seq::empty());
        r
    }

    /// Adds the last `count` of `messages`.
    pub fn add_recent_messages(&mut self, messages: &[Message], count: usize)
        ensures
            final(self)@ == old(self)@.add_recent_messages(message_views(messages@), count),
    {
        let start = if messages.len() > count {
            messages.len() - count
        } else {
            0
        };
        let ghost before = self@.recent_messages;
        let ghost all = message_views(messages@);
        let ghost added = all.subrange(start as int, messages.len() as int);
        let mut i: usize = start;
        while i < messages.len()
            invariant
                start <= i <= messages.len(),
                all == message_views(messages@),
                added == all.subrange(start as int, messages.len() as int),
                message_views(self.recent_messages@) == before + all.subrange(
                    start as int,
                    i as int,
                ),
                with_message_tokens(added, i - start, self.estimated_tokens)
                    == with_message_tokens(added, 0, old(self).estimated_tokens),
                self.active_files == old(self).active_files,
                self.ledger_summary == old(self).ledger_summary,
                self.recent_errors == old(self).recent_errors,
                self.relevant_tools == old(self).relevant_tools,
                self.phase == old(self).phase,
            decreases messages.len() - i,
        {
            let ghost held = message_views(self.recent_messages@);
            assert(added[i - start] == all[i as int]);
            self.estimated_tokens = saturating_sum(
                self.estimated_tokens,
                messages[i].estimated_tokens,
            );
            self.recent_messages.push(messages[i].duplicate());
            assert(message_views(self.recent_messages@) =~= held.push(all[i as int]));
            assert(before + all.subrange(start as int, i + 1) =~= (before + all.subrange(
                start as int,
                i as int,
            )).push(all[i as int]));
            i += 1;
        }
        assert(all.subrange(start as int, messages.len() as int) == added);
    }

    /// Adds a file summary.
    pub fn add_file_context(&mut self, summary: FileSummary)
        ensures
            final(self)@ == old(self)@.add_file_context(summary@),
    {
        let ghost before = self@.active_files;
        self.estimated_tokens = saturating_sum(
            self.estimated_tokens,
            quarter_of_chars(summary.summary.as_str()),
        );
        self.active_files.push(summary);
        assert(self@.active_files =~= before.push(summary@));
    }

    /// Sets the ledger summary.
    pub fn add_ledger_summary(&mut self, summary: String)
        ensures
            final(self)@ == old(self)@.add_ledger_summary(summary@),
    {
        self.estimated_tokens = saturating_sum(
            self.estimated_tokens,
            quarter_of_chars(summary.as_str()),
        );
        self.ledger_summary = Some(summary);
    }

    /// Adds an error.
    pub fn add_error_context(&mut self, error: ErrorContext)
        ensures
            final(self)@ == old(self)@.add_error_context(error@),
    {
        let ghost before = self@.recent_errors;
        self.estimated_tokens = saturating_sum(
            self.estimated_tokens,
            quarter_of_chars(error.error_message.as_str()),
        );
        self.recent_errors.push(error);
        assert(self@.recent_errors =~= before.push(error@));
    }

    /// Sets the tools.
    pub fn add_tools(&mut self, tools: Vec<ToolDefinition>)
        ensures
            final(self)@ == old(self)@.add_tools(tool_views(tools@)),
    {
        let ghost views = tool_views(tools@);
        let mut i: usize = 0;
        while i < tools.len()
            invariant
                i <= tools.len(),
                views == tool_views(tools@),
                with_tool_tokens(views, i as int, self.estimated_tokens) == with_tool_tokens(
                    views,
                    0,
                    old(self).estimated_tokens,
                ),
                self.recent_messages == old(self).recent_messages,
                self.active_files == old(self).active_files,
                self.ledger_summary == old(self).ledger_summary,
                self.recent_errors == old(self).recent_errors,
                self.phase == old(self).phase,
            decreases tools.len() - i,
        {
            self.estimated_tokens = saturating_sum(self.estimated_tokens, tools[i].estimated_tokens);
            i += 1;
        }
        self.relevant_tools = tools;
    }
}

impl Default for CuratedContext {
    fn default() -> (r: Self)
        ensures
            r@ == CuratedContextV::empty(),
    {
        CuratedContext::new()
    }
}

/// The phase that the words of a lower-case text point to: searching,
/// changing, checking or fixing, tried in that order.
pub open spec fn phase_of_text(lower: Seq<char>) -> ConversationPhase {
    if contains_spec(lower, "search"@) || contains_spec(lower, "find"@) || contains_spec(
        lower,
        "list"@,
    ) {
        ConversationPhase::Exploration
    } else if contains_spec(lower, "edit"@) || contains_spec(lower, "write"@) || contains_spec(
        lower,
        "create"@,
    ) || contains_spec(lower, "modify"@) {
        ConversationPhase::Implementation
    } else if contains_spec(lower, "test"@) || contains_spec(lower, "run"@) || contains_spec(
        lower,
        "check"@,
    ) || contains_spec(lower, "verify"@) {
        ConversationPhase::Validation
    } else if contains_spec(lower, "error"@) || contains_spec(lower, "fix"@) || contains_spec(
        lower,
        "debug"@,
    ) {
        ConversationPhase::Debugging
    } else {
        ConversationPhase::Unknown
    }
}

/// The phase of a conversation: what the last message points to; where it
/// points to nothing, debugging if errors are pending, else the phase so
/// far.
pub open spec fn detected_phase(
    messages: Seq<MessageV>,
    current: ConversationPhase,
    has_errors: bool,
) -> ConversationPhase {
    let from_text = if messages.len() > 0 {
        phase_of_text(lowercase_of(messages.last().content))
    } else {
        ConversationPhase::Unknown
    };
    if from_text != ConversationPhase::Unknown {
        from_text
    } else if has_errors {
        ConversationPhase::Debugging
    } else {
        current
    }
}

/// Whether a phase prefers a tool of the given name. Debugging and the
/// unknown phase take any tool.
pub open spec fn prefers(phase: ConversationPhase, name: Seq<char>) -> bool {
    match phase {
        ConversationPhase::Exploration => contains_spec(name, "grep"@) || contains_spec(
            name,
            "list"@,
        ) || contains_spec(name, "search"@) || contains_spec(name, "ast_grep"@),
        ConversationPhase::Implementation => contains_spec(name, "edit"@) || contains_spec(
            name,
            "write"@,
        ) || contains_spec(name, "read"@),
        ConversationPhase::Validation => contains_spec(name, "run"@) || contains_spec(
            name,
            "terminal"@,
        ),
        ConversationPhase::Debugging => true,
        ConversationPhase::Unknown => true,
    }
}

/// The selection `acc` after the preferred tools from index `i` on are
/// added, in order, until `max` are held.
pub open spec fn preferred_from(
    available: Seq<ToolDefinitionV>,
    i: int,
    phase: ConversationPhase,
    max: usize,
    acc: Seq<ToolDefinitionV>,
) -> Seq<ToolDefinitionV>
    decreases available.len() - i,
{
    if 0 <= i < available.len() && acc.len() < max {
        if prefers(phase, available[i].name) {
            preferred_from(available, i + 1, phase, max, acc.push(available[i]))
        } else {
            preferred_from(available, i + 1, phase, max, acc)
        }
    } else {
        acc
    }
}

/// Whether one of the first `n` selected tools has the given name.
pub open spec fn holds_name_within(selected: Seq<ToolDefinitionV>, name: Seq<char>, n: int)
    -> bool {
    exists|k: int| 0 <= k < n && k < selected.len() && (#[trigger] selected[k]).name == name
}

/// Whether a selected tool has the given name.
pub open spec fn holds_name(selected: Seq<ToolDefinitionV>, name: Seq<char>) -> bool {
    holds_name_within(selected, name, selected.len() as int)
}

/// The selection `acc` after the tools from index `i` on whose names it
/// does not hold yet are added, in order, until `max` are held.
pub open spec fn topped_up_from(
    available: Seq<ToolDefinitionV>,
    i: int,
    max: usize,
    acc: Seq<ToolDefinitionV>,
) -> Seq<ToolDefinitionV>
    decreases available.len() - i,
{
    if 0 <= i < available.len() && acc.len() < max {
        if !holds_name(acc, available[i].name) {
            topped_up_from(available, i + 1, max, acc.push(available[i]))
        } else {
            topped_up_from(available, i + 1, max, acc)
        }
    } else {
        acc
    }
}

/// The tools for a turn: at most `max`, those that the phase prefers
/// first, then others in the order of the registry.
pub open spec fn relevant_tools(
    available: Seq<ToolDefinitionV>,
    phase: ConversationPhase,
    max: usize,
) -> Seq<ToolDefinitionV> {
    topped_up_from(available, 0, max, preferred_from(available, 0, phase, max, Seq::empty()))
}

/// The context after trailing tools are dropped while it is over budget
/// and holds more than five.
pub open spec fn drop_tools(c: CuratedContextV, budget: usize) -> CuratedContextV
    decreases c.relevant_tools.len(),
{
    if c.estimated_tokens > budget && c.relevant_tools.len() > 5 {
        drop_tools(
            CuratedContextV {
                relevant_tools: c.relevant_tools.drop_last(),
                estimated_tokens: sat_sub(
                    c.estimated_tokens,
                    c.relevant_tools.last().estimated_tokens as int,
                ),
                ..c
            },
            budget,
        )
    } else {
        c
    }
}

/// The context after trailing files are dropped while it is over budget,
/// at a hundred tokens each.
pub open spec fn drop_files(c: CuratedContextV, budget: usize) -> CuratedContextV
    decreases c.active_files.len(),
{
    if c.estimated_tokens > budget && c.active_files.len() > 0 {
        drop_files(
            CuratedContextV {
                active_files: c.active_files.drop_last(),
                estimated_tokens: sat_sub(c.estimated_tokens, 100),
                ..c
            },
            budget,
        )
    } else {
        c
    }
}

/// The context after trailing errors are dropped while it is over budget.
pub open spec fn drop_errors(c: CuratedContextV, budget: usize) -> CuratedContextV
    decreases c.recent_errors.len(),
{
    if c.estimated_tokens > budget && c.recent_errors.len() > 0 {
        drop_errors(
            CuratedContextV {
                recent_errors: c.recent_errors.drop_last(),
                estimated_tokens: sat_sub(
                    c.estimated_tokens,
                    c.recent_errors.last().error_message.len() as int / 4,
                ),
                ..c
            },
            budget,
        )
    } else {
        c
    }
}

/// The context after leading messages are dropped while it is over budget
/// and holds more than three.
pub open spec fn drop_messages(c: CuratedContextV, budget: usize) -> CuratedContextV
    decreases c.recent_messages.len(),
{
    if c.estimated_tokens > budget && c.recent_messages.len() > 3 {
        drop_messages(
            CuratedContextV {
                recent_messages: c.recent_messages.drop_first(),
                estimated_tokens: sat_sub(
                    c.estimated_tokens,
                    c.recent_messages.first().estimated_tokens as int,
                ),
                ..c
            },
            budget,
        )
    } else {
        c
    }
}

/// The context brought towards the budget: tools go first, then files,
/// then errors, then the oldest messages.
pub open spec fn compressed(c: CuratedContextV, budget: usize) -> CuratedContextV {
    drop_messages(drop_errors(drop_files(drop_tools(c, budget), budget), budget), budget)
}

/// Compression keeps what it must: at least five tools and three messages
/// where there were as many, never a larger estimate, and nothing at all
/// changes within the budget.
pub proof fn lemma_compression_keeps_floor(c: CuratedContextV, budget: usize)
    ensures
        c.estimated_tokens <= budget ==> compressed(c, budget) == c,
        compressed(c, budget).estimated_tokens <= c.estimated_tokens,
        c.relevant_tools.len() >= 5 ==> compressed(c, budget).relevant_tools.len() >= 5,
        c.recent_messages.len() >= 3 ==> compressed(c, budget).recent_messages.len() >= 3,
        compressed(c, budget).relevant_tools.len() <= c.relevant_tools.len(),
        compressed(c, budget).recent_messages.len() <= c.recent_messages.len(),
        compressed(c, budget).phase == c.phase,
        compressed(c, budget).ledger_summary == c.ledger_summary,
{
    lemma_drop_tools(c, budget);
    let c1 = drop_tools(c, budget);
    lemma_drop_files(c1, budget);
    let c2 = drop_files(c1, budget);
    lemma_drop_errors(c2, budget);
    let c3 = drop_errors(c2, budget);
    lemma_drop_messages(c3, budget);
}

proof fn lemma_drop_tools(c: CuratedContextV, budget: usize)
    ensures
        c.estimated_tokens <= budget ==> drop_tools(c, budget) == c,
        drop_tools(c, budget).estimated_tokens <= c.estimated_tokens,
        c.relevant_tools.len() >= 5 ==> drop_tools(c, budget).relevant_tools.len() >= 5,
        drop_tools(c, budget).relevant_tools.len() <= c.relevant_tools.len(),
        drop_tools(c, budget).recent_messages == c.recent_messages,
        drop_tools(c, budget).active_files == c.active_files,
        drop_tools(c, budget).recent_errors == c.recent_errors,
        drop_tools(c, budget).phase == c.phase,
        drop_tools(c, budget).ledger_summary == c.ledger_summary,
    decreases c.relevant_tools.len(),
{
    if c.estimated_tokens > budget && c.relevant_tools.len() > 5 {
        lemma_drop_tools(
            CuratedContextV {
                relevant_tools: c.relevant_tools.drop_last(),
                estimated_tokens: sat_sub(
                    c.estimated_tokens,
                    c.relevant_tools.last().estimated_tokens as int,
                ),
                ..c
            },
            budget,
        );
    }
}

proof fn lemma_drop_files(c: CuratedContextV, budget: usize)
    ensures
        c.estimated_tokens <= budget ==> drop_files(c, budget) == c,
        drop_files(c, budget).estimated_tokens <= c.estimated_tokens,
        drop_files(c, budget).relevant_tools == c.relevant_tools,
        drop_files(c, budget).recent_messages == c.recent_messages,
        drop_files(c, budget).recent_errors == c.recent_errors,
        drop_files(c, budget).phase == c.phase,
        drop_files(c, budget).ledger_summary == c.ledger_summary,
    decreases c.active_files.len(),
{
    if c.estimated_tokens > budget && c.active_files.len() > 0 {
        lemma_drop_files(
            CuratedContextV {
                active_files: c.active_files.drop_last(),
                estimated_tokens: sat_sub(c.estimated_tokens, 100),
                ..c
            },
            budget,
        );
    }
}

proof fn lemma_drop_errors(c: CuratedContextV, budget: usize)
    ensures
        c.estimated_tokens <= budget ==> drop_errors(c, budget) == c,
        drop_errors(c, budget).estimated_tokens <= c.estimated_tokens,
        drop_errors(c, budget).relevant_tools == c.relevant_tools,
        drop_errors(c, budget).recent_messages == c.recent_messages,
        drop_errors(c, budget).active_files == c.active_files,
        drop_errors(c, budget).phase == c.phase,
        drop_errors(c, budget).ledger_summary == c.ledger_summary,
    decreases c.recent_errors.len(),
{
    if c.estimated_tokens > budget && c.recent_errors.len() > 0 {
        lemma_drop_errors(
            CuratedContextV {
                recent_errors: c.recent_errors.drop_last(),
                estimated_tokens: sat_sub(
                    c.estimated_tokens,
                    c.recent_errors.last().error_message.len() as int / 4,
                ),
                ..c
            },
            budget,
        );
    }
}

proof fn lemma_drop_messages(c: CuratedContextV, budget: usize)
    ensures
        c.estimated_tokens <= budget ==> drop_messages(c, budget) == c,
        drop_messages(c, budget).estimated_tokens <= c.estimated_tokens,
        c.recent_messages.len() >= 3 ==> drop_messages(c, budget).recent_messages.len() >= 3,
        drop_messages(c, budget).recent_messages.len() <= c.recent_messages.len(),
        drop_messages(c, budget).relevant_tools == c.relevant_tools,
        drop_messages(c, budget).active_files == c.active_files,
        drop_messages(c, budget).recent_errors == c.recent_errors,
        drop_messages(c, budget).phase == c.phase,
        drop_messages(c, budget).ledger_summary == c.ledger_summary,
    decreases c.recent_messages.len(),
{
    if c.estimated_tokens > budget && c.recent_messages.len() > 3 {
        lemma_drop_messages(
            CuratedContextV {
                recent_messages: c.recent_messages.drop_first(),
                estimated_tokens: sat_sub(
                    c.estimated_tokens,
                    c.recent_messages.first().estimated_tokens as int,
                ),
                ..c
            },
            budget,
        );
    }
}

/// A selection never holds more tools than asked for, nor more than there
/// are.
pub proof fn lemma_relevant_tools_bounded(
    available: Seq<ToolDefinitionV>,
    phase: ConversationPhase,
    max: usize,
)
    ensures
        relevant_tools(available, phase, max).len() <= max,
{
    lemma_preferred_bounded(available, 0, phase, max, Seq::empty());
    lemma_topped_up_bounded(
        available,
        0,
        max,
        preferred_from(available, 0, phase, max, Seq::empty()),
    );
}

proof fn lemma_preferred_bounded(
    available: Seq<ToolDefinitionV>,
    i: int,
    phase: ConversationPhase,
    max: usize,
    acc: Seq<ToolDefinitionV>,
)
    requires
        acc.len() <= max,
    ensures
        preferred_from(available, i, phase, max, acc).len() <= max,
    decreases available.len() - i,
{
    if 0 <= i < available.len() && acc.len() < max {
        if prefers(phase, available[i].name) {
            lemma_preferred_bounded(available, i + 1, phase, max, acc.push(available[i]));
        } else {
            lemma_preferred_bounded(available, i + 1, phase, max, acc);
        }
    }
}

proof fn lemma_topped_up_bounded(
    available: Seq<ToolDefinitionV>,
    i: int,
    max: usize,
    acc: Seq<ToolDefinitionV>,
)
    requires
        acc.len() <= max,
    ensures
        topped_up_from(available, i, max, acc).len() <= max,
    decreases available.len() - i,
{
    if 0 <= i < available.len() && acc.len() < max {
        if !holds_name(acc, available[i].name) {
            lemma_topped_up_bounded(available, i + 1, max, acc.push(available[i]));
        } else {
            lemma_topped_up_bounded(available, i + 1, max, acc);
        }
    }
}

fn check_prefers(phase: ConversationPhase, name: &str) -> (r: bool)
    ensures
        r == prefers(phase, name@),
{
    match phase {
        ConversationPhase::Exploration => str_contains(name, "grep") || str_contains(name, "list")
            || str_contains(name, "search") || str_contains(name, "ast_grep"),
        ConversationPhase::Implementation => str_contains(name, "edit") || str_contains(
            name,
            "write",
        ) || str_contains(name, "read"),
        ConversationPhase::Validation => str_contains(name, "run") || str_contains(
            name,
            "terminal",
        ),
        ConversationPhase::Debugging => true,
        ConversationPhase::Unknown => true,
    }
}

fn check_holds_name(selected: &Vec<ToolDefinition>, name: &str) -> (r: bool)
    ensures
        r == holds_name(tool_views(selected@), name@),
{
    let ghost views = tool_views(selected@);
    let mut k: usize = 0;
    while k < selected.len()
        invariant
            k <= selected.len(),
            views == tool_views(selected@),
            !holds_name_within(views, name@, k as int),
        decreases selected.len() - k,
    {
        if crate::text::str_eq(selected[k].name.as_str(), name) {
            assert(views[k as int].name == name@);
            return true;
        }
        k += 1;
    }
    false
}

/// Detects the phase of a conversation from the lower-case text of its
/// last message.
pub fn detect_phase_of(messages: &[Message], current: ConversationPhase, has_errors: bool) -> (r:
    ConversationPhase)
    ensures
        r == detected_phase(message_views(messages@), current, has_errors),
{
    let mut detected = ConversationPhase::Unknown;
    if messages.len() > 0 {
        let recent = &messages[messages.len() - 1];
        let lowered = recent.content.as_str().to_lowercase();
        let lower = lowered.as_str();
        if str_contains(lower, "search") || str_contains(lower, "find") || str_contains(
            lower,
            "list",
        ) {
            detected = ConversationPhase::Exploration;
        } else if str_contains(lower, "edit") || str_contains(lower, "write") || str_contains(
            lower,
            "create",
        ) || str_contains(lower, "modify") {
            detected = ConversationPhase::Implementation;
        } else if str_contains(lower, "test") || str_contains(lower, "run") || str_contains(
            lower,
            "check",
        ) || str_contains(lower, "verify") {
            detected = ConversationPhase::Validation;
        } else if str_contains(lower, "error") || str_contains(lower, "fix") || str_contains(
            lower,
            "debug",
        ) {
            detected = ConversationPhase::Debugging;
        }
    }
    if detected == ConversationPhase::Unknown && has_errors {
        detected = ConversationPhase::Debugging;
    }
    if detected == ConversationPhase::Unknown {
        detected = current;
    }
    detected
}

/// Selects the tools for a turn: at most `max`, those that the phase
/// prefers first, then others in the order of the registry.
pub fn select_tools(available: &[ToolDefinition], phase: ConversationPhase, max: usize) -> (r: Vec<
    ToolDefinition,
>)
    ensures
        tool_views(r@) == relevant_tools(tool_views(available@), phase, max),
        r@.len() <= max,
{
    let ghost all = tool_views(available@);
    let mut selected: Vec<ToolDefinition> = Vec::new();
    assert(tool_views(selected@) =~= Seq::empty());
    let mut i: usize = 0;
    while i < available.len() && selected.len() < max
        invariant
            i <= available.len(),
            all == tool_views(available@),
            preferred_from(all, i as int, phase, max, tool_views(selected@)) == preferred_from(
                all,
                0,
                phase,
                max,
                Seq::empty(),
            ),
        decreases available.len() - i,
    {
        if check_prefers(phase, available[i].name.as_str()) {
            let ghost before = tool_views(selected@);
            selected.push(available[i].duplicate());
            assert(tool_views(selected@) =~= before.push(all[i as int]));
        }
        i += 1;
    }
    let ghost preferred = tool_views(selected@);
    let mut j: usize = 0;
    while j < available.len() && selected.len() < max
        invariant
            j <= available.len(),
            all == tool_views(available@),
            topped_up_from(all, j as int, max, tool_views(selected@)) == topped_up_from(
                all,
                0,
                max,
                preferred,
            ),
        decreases available.len() - j,
    {
        if !check_holds_name(&selected, available[j].name.as_str()) {
            let ghost before = tool_views(selected@);
            selected.push(available[j].duplicate());
            assert(tool_views(selected@) =~= before.push(all[j as int]));
        }
        j += 1;
    }
    proof {
        lemma_relevant_tools_bounded(all, phase, max);
    }
    selected
}

/// Brings a context towards the budget: tools go first (at least five
/// stay), then files, then errors, then the oldest messages (at least three
/// stay).
pub fn compress(context: CuratedContext, budget: usize) -> (r: CuratedContext)
    ensures
        r@ == compressed(context@, budget),
{
    let mut context = context;
    let ghost start = context@;
    while context.estimated_tokens > budget && context.relevant_tools.len() > 5
        invariant
            drop_tools(context@, budget) == drop_tools(start, budget),
        decreases context.relevant_tools.len(),
    {
        let ghost before = context@;
        if let Some(tool) = context.relevant_tools.pop() {
            context.estimated_tokens = saturating_difference(
                context.estimated_tokens,
                tool.estimated_tokens,
            );
            assert(context@.relevant_tools =~= before.relevant_tools.drop_last());
            assert(context@.recent_messages =~= before.recent_messages);
            assert(context@.active_files =~= before.active_files);
            assert(context@.recent_errors =~= before.recent_errors);
        }
    }
    let ghost after_tools = context@;
    while context.estimated_tokens > budget && context.active_files.len() > 0
        invariant
            drop_files(context@, budget) == drop_files(after_tools, budget),
        decreases context.active_files.len(),
    {
        let ghost before = context@;
        context.active_files.pop();
        context.estimated_tokens = saturating_difference(context.estimated_tokens, 100);
        assert(context@.active_files =~= before.active_files.drop_last());
        assert(context@.recent_messages =~= before.recent_messages);
        assert(context@.relevant_tools =~= before.relevant_tools);
        assert(context@.recent_errors =~= before.recent_errors);
    }
    let ghost after_files = context@;
    while context.estimated_tokens > budget && context.recent_errors.len() > 0
        invariant
            drop_errors(context@, budget) == drop_errors(after_files, budget),
        decreases context.recent_errors.len(),
    {
        let ghost before = context@;
        if let Some(error) = context.recent_errors.pop() {
            context.estimated_tokens = saturating_difference(
                context.estimated_tokens,
                quarter_of_chars(error.error_message.as_str()),
            );
            assert(context@.recent_errors =~= before.recent_errors.drop_last());
            assert(context@.recent_messages =~= before.recent_messages);
            assert(context@.relevant_tools =~= before.relevant_tools);
            assert(context@.active_files =~= before.active_files);
        }
    }
    let ghost after_errors = context@;
    while context.estimated_tokens > budget && context.recent_messages.len() > 3
        invariant
            drop_messages(context@, budget) == drop_messages(after_errors, budget),
        decreases context.recent_messages.len(),
    {
        let ghost before = context@;
        let message = context.recent_messages.remove(0);
        context.estimated_tokens = saturating_difference(
            context.estimated_tokens,
            message.estimated_tokens,
        );
        assert(context@.recent_messages =~= before.recent_messages.drop_first());
        assert(context@.relevant_tools =~= before.relevant_tools);
        assert(context@.active_files =~= before.active_files);
        assert(context@.recent_errors =~= before.recent_errors);
    }
    context
}

/// Index of the first summary of the file `path` at or after `from`, or
/// the number of summaries when there is none.
pub open spec fn summary_index_from(summaries: Seq<FileSummaryV>, path: Seq<char>, from: int)
    -> int
    decreases summaries.len() - from,
{
    if 0 <= from < summaries.len() {
        if summaries[from].path == path {
            from
        } else {
            summary_index_from(summaries, path, from + 1)
        }
    } else {
        summaries.len() as int
    }
}

/// Index of the first text equal to `text` at or after `from`, or the
/// number of texts when there is none.
pub open spec fn text_index_from(texts: Seq<Seq<char>>, text: Seq<char>, from: int) -> int
    decreases texts.len() - from,
{
    if 0 <= from < texts.len() {
        if texts[from] == text {
            from
        } else {
            text_index_from(texts, text, from + 1)
        }
    } else {
        texts.len() as int
    }
}

/// The context after the summaries of the active files from index `i` on
/// are added; a file without a summary adds nothing.
pub open spec fn with_files_from(
    paths: Seq<Seq<char>>,
    i: int,
    summaries: Seq<FileSummaryV>,
    context: CuratedContextV,
) -> CuratedContextV
    decreases paths.len() - i,
{
    if 0 <= i < paths.len() {
        let k = summary_index_from(summaries, paths[i], 0);
        with_files_from(
            paths,
            i + 1,
            summaries,
            if 0 <= k < summaries.len() {
                context.add_file_context(summaries[k])
            } else {
                context
            },
        )
    } else {
        context
    }
}

/// The context after the errors from the `k`-th newest to the `count`-th
/// newest are added, newest first.
pub open spec fn with_errors_from(
    errors: Seq<ErrorContextV>,
    k: int,
    count: int,
    context: CuratedContextV,
) -> CuratedContextV
    decreases count - k,
{
    if 0 <= k < count && k < errors.len() {
        with_errors_from(
            errors,
            k + 1,
            count,
            context.add_error_context(errors[errors.len() - 1 - k]),
        )
    } else {
        context
    }
}

/// The smaller of two sizes.
pub open spec fn min_usize(a: usize, b: usize) -> usize {
    if a <= b {
        a
    } else {
        b
    }
}

/// Model of a [`ContextCurator`].
pub struct ContextCuratorV {
    pub config: ContextCurationConfig,
    pub active_files: Seq<Seq<char>>,
    pub recent_errors: Seq<ErrorContextV>,
    pub file_summaries: Seq<FileSummaryV>,
    pub current_phase: ConversationPhase,
}

impl ContextCuratorV {
    /// The phase after a turn over `conversation`.
    pub open spec fn phase_for(self, conversation: Seq<MessageV>) -> ConversationPhase {
        detected_phase(conversation, self.current_phase, self.recent_errors.len() > 0)
    }

    /// What a turn hands to the model. With curation off, that is the whole
    /// conversation and every tool. With it on, in this order: the recent
    /// messages, the summaries of the active files, the ledger summary
    /// unless it is empty or excluded, the recent errors newest first, and
    /// the tools for the phase; the whole is then brought towards the
    /// smaller of the remaining budget and the limit of a turn.
    pub open spec fn curated(
        self,
        conversation: Seq<MessageV>,
        tools: Seq<ToolDefinitionV>,
        remaining_tokens: usize,
        ledger: Seq<char>,
    ) -> CuratedContextV {
        if !self.config.enabled {
            CuratedContextV::empty().add_recent_messages(
                conversation,
                conversation.len() as usize,
            ).add_tools(tools)
        } else {
            let budget = min_usize(remaining_tokens, self.config.max_tokens_per_turn);
            let phase = self.phase_for(conversation);
            let c0 = CuratedContextV { phase, ..CuratedContextV::empty() };
            let c1 = c0.add_recent_messages(
                conversation,
                min_usize(self.config.preserve_recent_messages, conversation.len() as usize),
            );
            let c2 = with_files_from(self.active_files, 0, self.file_summaries, c1);
            let c3 = if self.config.include_ledger && ledger.len() > 0 {
                c2.add_ledger_summary(ledger)
            } else {
                c2
            };
            let c4 = if self.config.include_recent_errors {
                with_errors_from(
                    self.recent_errors,
                    0,
                    min_usize(self.config.max_recent_errors, self.recent_errors.len() as usize) as int,
                    c3,
                )
            } else {
                c3
            };
            let c5 = c4.add_tools(relevant_tools(tools, phase, self.config.max_tool_descriptions));
            compressed(c5, budget)
        }
    }
}

/// The curator: the files being worked on, the errors seen lately, the
/// summaries of known files, and the phase of the conversation.
#[derive(Debug)]
pub struct ContextCurator {
    pub config: ContextCurationConfig,
    pub active_files: Vec<String>,
    pub recent_errors: Vec<ErrorContext>,
    pub file_summaries: Vec<FileSummary>,
    pub current_phase: ConversationPhase,
}

impl View for ContextCurator {
    type V = ContextCuratorV;

    open spec fn view(&self) -> ContextCuratorV {
        ContextCuratorV {
            config: self.config,
            active_files: text_views(self.active_files@),
            recent_errors: error_views(self.recent_errors@),
            file_summaries: file_views(self.file_summaries@),
            current_phase: self.current_phase,
        }
    }
}

fn duplicate_tools(tools: &[ToolDefinition]) -> (r: Vec<ToolDefinition>)
    ensures
        tool_views(r@) == tool_views(tools@),
{
    let mut out: Vec<ToolDefinition> = Vec::new();
    let mut i: usize = 0;
    while i < tools.len()
        invariant
            i <= tools.len(),
            out@.len() == i,
            forall|k: int| 0 <= k < i ==> out@[k]@ == tools@[k]@,
        decreases tools.len() - i,
    {
        out.push(tools[i].duplicate());
        i += 1;
    }
    assert(tool_views(out@) =~= tool_views(tools@));
    out
}

impl ContextCurator {
    /// A curator that knows no file and no error.
    pub fn new(config: ContextCurationConfig) -> (r: ContextCurator)
        ensures
            r@ == (ContextCuratorV {
                config,
                active_files: Seq::empty(),
                recent_errors: Seq::empty(),
                file_summaries: Seq::empty(),
                current_phase: ConversationPhase::Unknown,
            }),
    {
        let r = ContextCurator {
            config,
            active_files: Vec::new(),
            recent_errors: Vec::new(),
            file_summaries: Vec::new(),
            current_phase: ConversationPhase::Unknown,
        };
        assert(r@.active_files =~= Seq::empty());
        assert(r@.recent_errors =~= Seq::empty());
        assert(r@.file_summaries =~= Seq::empty());
        r
    }

    /// Marks a file as being worked on; a file already marked stays where
    /// it is.
    pub fn mark_file_active(&mut self, path: String)
        ensures
            final(self)@ == (ContextCuratorV {
                active_files: if text_index_from(old(self)@.active_files, path@, 0) < old(self)@.active_files.len() {
                    old(self)@.active_files
                } else {
                    old(self)@.active_files.push(path@)
                },
                ..old(self)@
            }),
    {
        let ghost texts = self@.active_files;
        let mut i: usize = 0;
        while i < self.active_files.len()
            invariant
                i <= self.active_files.len(),
                *self == *old(self),
                texts == text_views(self.active_files@),
                text_index_from(texts, path@, i as int) == text_index_from(texts, path@, 0),
            decreases self.active_files.len() - i,
        {
            if crate::text::str_eq(self.active_files[i].as_str(), path.as_str()) {
                return ;
            }
            i += 1;
        }
        self.active_files.push(path);
        assert(self@.active_files =~= texts.push(path@));
    }

    /// Records an error. Where more errors are held than the limit allows,
    /// the oldest one goes. An error turns the phase to debugging.
    pub fn add_error(&mut self, error: ErrorContext)
        ensures
            final(self)@ == (ContextCuratorV {
                recent_errors: if old(self)@.recent_errors.len() + 1 > old(self)@.config.max_recent_errors {
                    old(self)@.recent_errors.push(error@).drop_first()
                } else {
                    old(self)@.recent_errors.push(error@)
                },
                current_phase: ConversationPhase::Debugging,
                ..old(self)@
            }),
    {
        let ghost before = self@.recent_errors;
        self.recent_errors.push(error);
        assert(self@.recent_errors =~= before.push(error@));
        if self.recent_errors.len() > self.config.max_recent_errors {
            self.recent_errors.remove(0);
            assert(self@.recent_errors =~= before.push(error@).drop_first());
        }
        self.current_phase = ConversationPhase::Debugging;
    }

    /// Records the summary of a file, in place of an earlier one of the
    /// same file.
    pub fn add_file_summary(&mut self, summary: FileSummary)
        ensures
            final(self)@ == (ContextCuratorV {
                file_summaries: {
                    let k = summary_index_from(old(self)@.file_summaries, summary@.path, 0);
                    if 0 <= k < old(self)@.file_summaries.len() {
                        old(self)@.file_summaries.update(k, summary@)
                    } else {
                        old(self)@.file_summaries.push(summary@)
                    }
                },
                ..old(self)@
            }),
    {
        let ghost views = self@.file_summaries;
        let mut i: usize = 0;
        while i < self.file_summaries.len()
            invariant
                i <= self.file_summaries.len(),
                *self == *old(self),
                views == file_views(self.file_summaries@),
                summary_index_from(views, summary@.path, i as int) == summary_index_from(
                    views,
                    summary@.path,
                    0,
                ),
            decreases self.file_summaries.len() - i,
        {
            if crate::text::str_eq(self.file_summaries[i].path.as_str(), summary.path.as_str()) {
                self.file_summaries.set(i, summary);
                assert(self@.file_summaries =~= views.update(i as int, summary@));
                assert(self@.active_files =~= old(self)@.active_files);
                assert(self@.recent_errors =~= old(self)@.recent_errors);
                return ;
            }
            i += 1;
        }
        self.file_summaries.push(summary);
        assert(self@.file_summaries =~= views.push(summary@));
    }

    /// Detects the phase of a conversation and makes it the current one.
    pub fn detect_phase(&mut self, messages: &[Message]) -> (r: ConversationPhase)
        ensures
            r == old(self)@.phase_for(message_views(messages@)),
            final(self)@ == (ContextCuratorV { current_phase: r, ..old(self)@ }),
    {
        let detected = detect_phase_of(messages, self.current_phase, self.recent_errors.len() > 0);
        self.current_phase = detected;
        detected
    }

    /// Selects the tools for a phase, at most as many as the settings
    /// allow.
    pub fn select_relevant_tools(&self, available_tools: &[ToolDefinition], phase: ConversationPhase)
        -> (r: Vec<ToolDefinition>)
        ensures
            tool_views(r@) == relevant_tools(
                tool_views(available_tools@),
                phase,
                self.config.max_tool_descriptions,
            ),
            r@.len() <= self.config.max_tool_descriptions,
    {
        select_tools(available_tools, phase, self.config.max_tool_descriptions)
    }

    /// Brings a context towards a budget.
    pub fn compress_context(&self, context: CuratedContext, budget: usize) -> (r: CuratedContext)
        ensures
            r@ == compressed(context@, budget),
    {
        compress(context, budget)
    }

    /// Curates the context of one turn. `remaining_tokens` is what is left
    /// of the token budget, `ledger_summary` the rendered decision ledger.
    pub fn curate_context(
        &mut self,
        conversation: &[Message],
        available_tools: &[ToolDefinition],
        remaining_tokens: usize,
        ledger_summary: &str,
    ) -> (r: CuratedContext)
        ensures
            r@ == old(self)@.curated(
                message_views(conversation@),
                tool_views(available_tools@),
                remaining_tokens,
                ledger_summary@,
            ),
            final(self)@ == (ContextCuratorV {
                current_phase: if old(self)@.config.enabled {
                    old(self)@.phase_for(message_views(conversation@))
                } else {
                    old(self)@.current_phase
                },
                ..old(self)@
            }),
    {
        if !self.config.enabled {
            let mut context = CuratedContext::new();
            context.add_recent_messages(conversation, conversation.len());
            context.add_tools(duplicate_tools(available_tools));
            return context;
        }
        let budget = if remaining_tokens <= self.config.max_tokens_per_turn {
            remaining_tokens
        } else {
            self.config.max_tokens_per_turn
        };
        let mut context = CuratedContext::new();
        let phase = self.detect_phase(conversation);
        context.phase = phase;
        let message_count = if self.config.preserve_recent_messages <= conversation.len() {
            self.config.preserve_recent_messages
        } else {
            conversation.len()
        };
        context.add_recent_messages(conversation, message_count);
        let ghost c1 = context@;
        let ghost paths = self@.active_files;
        let ghost summaries = self@.file_summaries;
        let mut i: usize = 0;
        while i < self.active_files.len()
            invariant
                i <= self.active_files.len(),
                paths == text_views(self.active_files@),
                summaries == file_views(self.file_summaries@),
                with_files_from(paths, i as int, summaries, context@) == with_files_from(
                    paths,
                    0,
                    summaries,
                    c1,
                ),
            decreases self.active_files.len() - i,
        {
            let mut k: usize = 0;
            let mut found: Option<usize> = None;
            while k < self.file_summaries.len()
                invariant_except_break
                    found is None,
                    summary_index_from(summaries, paths[i as int], k as int) == summary_index_from(
                        summaries,
                        paths[i as int],
                        0,
                    ),
                invariant
                    k <= self.file_summaries.len(),
                    i < self.active_files.len(),
                    paths == text_views(self.active_files@),
                    summaries == file_views(self.file_summaries@),
                ensures
                    match found {
                        Some(at) => at == summary_index_from(summaries, paths[i as int], 0) && at
                            < self.file_summaries.len(),
                        None => summary_index_from(summaries, paths[i as int], 0)
                            == summaries.len(),
                    },
                decreases self.file_summaries.len() - k,
            {
                if crate::text::str_eq(
                    self.file_summaries[k].path.as_str(),
                    self.active_files[i].as_str(),
                ) {
                    found = Some(k);
                    break ;
                }
                k += 1;
            }
            if let Some(at) = found {
                context.add_file_context(self.file_summaries[at].duplicate());
            }
            i += 1;
        }
        if self.config.include_ledger && !ledger_summary.is_empty() {
            context.add_ledger_summary(ledger_summary.to_owned());
        }
        if self.config.include_recent_errors {
            let error_count = if self.config.max_recent_errors <= self.recent_errors.len() {
                self.config.max_recent_errors
            } else {
                self.recent_errors.len()
            };
            let ghost c3 = context@;
            let ghost errors = self@.recent_errors;
            let mut k: usize = 0;
            while k < error_count
                invariant
                    k <= error_count <= self.recent_errors.len(),
                    errors == error_views(self.recent_errors@),
                    with_errors_from(errors, k as int, error_count as int, context@)
                        == with_errors_from(errors, 0, error_count as int, c3),
                decreases error_count - k,
            {
                let at = self.recent_errors.len() - 1 - k;
                context.add_error_context(self.recent_errors[at].duplicate());
                k += 1;
            }
        }
        let relevant = self.select_relevant_tools(available_tools, phase);
        context.add_tools(relevant);
        self.compress_context(context, budget)
    }

    /// The phase of the conversation.
    pub fn current_phase(&self) -> (r: ConversationPhase)
        ensures
            r == self@.current_phase,
    {
        self.current_phase
    }

    /// Forgets which files are being worked on.
    pub fn clear_active_files(&mut self)
        ensures
            final(self)@ == (ContextCuratorV { active_files: Seq::empty(), ..old(self)@ }),
    {
        self.active_files.clear();
        assert(self@.active_files =~= Seq::empty());
    }

    /// Forgets the errors seen lately.
    pub fn clear_errors(&mut self)
        ensures
            final(self)@ == (ContextCuratorV { recent_errors: Seq::empty(), ..old(self)@ }),
    {
        self.recent_errors.clear();
        assert(self@.recent_errors =~= Seq::empty());
    }
}

} // verus!
