//! The decoder of streamed responses: server-sent events in, an
//! interleaved sequence of text, reasoning and tool-call events out.

use crate::json::{Json, JsonV};
use crate::llm::provider::{FinishReason, FinishReasonV, ToolCall, ToolCallV, Usage};
use crate::text::{
    char_is_whitespace, chars_of, decimal, decimal_spec, first_non_ws, is_blank, is_blank_chars,
    last_non_ws_end, slice_chars, str_eq, string_of, trim_chars, trim_spec, trim_start_index,
    trim_start_spec,
};
use vstd::prelude::*;

verus! {

/// Model of a [`ToolCallBuilder`].
pub struct ToolCallBuilderV {
    pub id: Option<Seq<char>>,
    pub name: Option<Seq<char>>,
    pub arguments: Seq<char>,
}

/// A tool call under assembly: the fragments a stream has delivered so far
/// for one tool-call index.
#[derive(Debug)]
pub struct ToolCallBuilder {
    pub id: Option<String>,
    pub name: Option<String>,
    pub arguments: String,
}

impl View for ToolCallBuilder {
    type V = ToolCallBuilderV;

    open spec fn view(&self) -> ToolCallBuilderV {
        ToolCallBuilderV {
            id: crate::llm::provider::opt_text(self.id),
            name: crate::llm::provider::opt_text(self.name),
            arguments: self.arguments@,
        }
    }
}

impl ToolCallBuilderV {
    /// A builder that has received nothing.
    pub open spec fn empty() -> ToolCallBuilderV {
        ToolCallBuilderV { id: None, name: None, arguments: Seq::empty() }
    }

    /// The finished call, owed exactly when a name that is not empty has
    /// arrived. A missing id becomes `tool_call_<index>`, empty arguments
    /// become `{}`.
    pub open spec fn finalize(self, index: nat) -> Option<ToolCallV> {
        match self.name {
            None => None,
            Some(name) => if name.len() == 0 {
                None
            } else {
                Some(
                ToolCallV {
                    id: match self.id {
                        Some(id) => id,
                        None => "tool_call_"@ + decimal_spec(index),
                    },
                    name,
                    arguments: if self.arguments.len() == 0 {
                        "{}"@
                    } else {
                        self.arguments
                    },
                },
            )
            },
        }
    }

    /// The builder after one delta: an `id` and a `function.name` replace
    /// what was there, `function.arguments` is appended, as it stands when it
    /// is text and as compact JSON when it is an object or an array.
    pub open spec fn apply(self, delta: JsonV) -> ToolCallBuilderV {
        let id = match delta.get_str("id"@) {
            Some(id) => Some(id),
            None => self.id,
        };
        match delta.get("function"@) {
            None => ToolCallBuilderV { id, ..self },
            Some(function) => ToolCallBuilderV {
                id,
                name: match function.get_str("name"@) {
                    Some(name) => Some(name),
                    None => self.name,
                },
                arguments: self.arguments + arguments_fragment(function.get("arguments"@)),
            },
        }
    }
}

/// What a delta's `arguments` member adds to the assembled arguments.
pub open spec fn arguments_fragment(value: Option<JsonV>) -> Seq<char> {
    match value {
        Some(JsonV::Str(text)) => text,
        Some(JsonV::Object(keys, values)) => crate::json::json_text(JsonV::Object(keys, values)),
        Some(JsonV::Array(items)) => crate::json::json_text(JsonV::Array(items)),
        _ => Seq::empty(),
    }
}

impl ToolCallBuilder {
    /// A builder that has received nothing.
    pub fn new() -> (r: ToolCallBuilder)
        ensures
            r@ == ToolCallBuilderV::empty(),
    {
        ToolCallBuilder { id: None, name: None, arguments: String::new() }
    }

    /// The finished call, owed exactly when a name that is not empty has
    /// arrived.
    pub fn finalize(self, fallback_index: usize) -> (r: Option<ToolCall>)
        ensures
            crate::llm::provider::opt_tool_call_view(r) == self@.finalize(fallback_index as nat),
    {
        let name = match self.name {
            Some(name) => name,
            None => {
                return None;
            },
        };
        if name.as_str().is_empty() {
            return None;
        }
        let id = match self.id {
            Some(id) => id,
            None => {
                let mut id = "tool_call_".to_owned();
                id.append(decimal(fallback_index as u64).as_str());
                id
            },
        };
        let arguments = if self.arguments.as_str().is_empty() {
            "{}".to_owned()
        } else {
            self.arguments
        };
        Some(ToolCall::function(id, name, arguments))
    }

    /// A copy of this builder.
    pub fn duplicate(&self) -> (r: ToolCallBuilder)
        ensures
            r@ == self@,
    {
        ToolCallBuilder {
            id: crate::llm::provider::duplicate_opt_text(&self.id),
            name: crate::llm::provider::duplicate_opt_text(&self.name),
            arguments: self.arguments.clone(),
        }
    }

    /// The builder after one delta.
    pub fn apply(self, delta: &Json) -> (r: ToolCallBuilder)
        ensures
            r@ == self@.apply(delta@),
    {
        let id = match delta.get_str("id") {
            Some(id) => Some(id.to_owned()),
            None => self.id,
        };
        match delta.get("function") {
            None => ToolCallBuilder { id, name: self.name, arguments: self.arguments },
            Some(function) => {
                let name = match function.get_str("name") {
                    Some(name) => Some(name.to_owned()),
                    None => self.name,
                };
                let mut arguments = self.arguments;
                match function.get("arguments") {
                    Some(value) => {
                        match value {
                            Json::Str(text) => {
                                arguments.append(text.as_str());
                            },
                            Json::Object(_) => {
                                arguments.append(value.to_text().as_str());
                            },
                            Json::Array(_) => {
                                arguments.append(value.to_text().as_str());
                            },
                            _ => {
                                assert(arguments@ + Seq::<char>::empty() =~= arguments@);
                            },
                        }
                    },
                    None => {
                        assert(arguments@ + Seq::<char>::empty() =~= arguments@);
                    },
                }
                ToolCallBuilder { id, name, arguments }
            },
        }
    }
}

/// The models of a sequence of builders.
pub open spec fn builder_views(builders: Seq<ToolCallBuilder>) -> Seq<ToolCallBuilderV> {
    Seq::new(builders.len(), |i: int| builders[i]@)
}

/// The place of a delta among the builders: the index the server gave it,
/// or its position in the list where it has none.
pub open spec fn delta_slot(delta: JsonV, position: int) -> int {
    match delta.get_u64("index"@) {
        Some(n) => n as int,
        None => position,
    }
}

/// The builders with the one at `slot` taking `source`, the list growing
/// by empty builders to reach it.
pub open spec fn applied_at(builders: Seq<ToolCallBuilderV>, slot: int, source: JsonV) -> Seq<
    ToolCallBuilderV,
> {
    let grown = grown_to(builders, slot + 1);
    grown.update(slot, grown[slot].apply(source))
}

/// The builders after the deltas from index `i` on: each goes to the
/// builder at its place, and one whose place no list can hold is passed
/// over.
pub open spec fn updated_builders_from(
    builders: Seq<ToolCallBuilderV>,
    deltas: Seq<JsonV>,
    i: int,
) -> Seq<ToolCallBuilderV>
    decreases deltas.len() - i,
{
    if 0 <= i < deltas.len() {
        let slot = delta_slot(deltas[i], i);
        if slot >= usize::MAX {
            updated_builders_from(builders, deltas, i + 1)
        } else {
            updated_builders_from(applied_at(builders, slot, deltas[i]), deltas, i + 1)
        }
    } else {
        builders
    }
}

/// The builders after a list of deltas, each going to the builder that
/// the server's index names.
pub open spec fn updated_builders(builders: Seq<ToolCallBuilderV>, deltas: Seq<JsonV>) -> Seq<
    ToolCallBuilderV,
> {
    updated_builders_from(builders, deltas, 0)
}

fn apply_at(builders: &mut Vec<ToolCallBuilder>, slot: usize, source: &Json)
    requires
        slot < usize::MAX,
    ensures
        builder_views(final(builders)@) == applied_at(
            builder_views(old(builders)@),
            slot as int,
            source@,
        ),
{
    let ghost before = builder_views(builders@);
    while builders.len() <= slot
        invariant
            slot < usize::MAX,
            before.len() <= builders@.len(),
            builders@.len() <= slot + 1 || builders@.len() == before.len(),
            forall|k: int| 0 <= k < before.len() ==> builders@[k]@ == before[k],
            forall|k: int|
                before.len() <= k < builders@.len() ==> builders@[k]@
                    == ToolCallBuilderV::empty(),
        decreases slot + 1 - builders.len(),
    {
        builders.push(ToolCallBuilder::new());
    }
    let ghost grown = grown_to(before, slot + 1);
    assert(builder_views(builders@) =~= grown);
    let current = builders[slot].duplicate();
    let next = current.apply(source);
    builders.set(slot, next);
    assert(builder_views(builders@) =~= grown.update(slot as int, grown[slot as int].apply(source@)));
}

/// Applies a list of deltas, each to the builder that the server's index
/// names.
pub fn update_tool_calls(builders: &mut Vec<ToolCallBuilder>, deltas: &[Json])
    ensures
        builder_views(final(builders)@) == updated_builders(
            builder_views(old(builders)@),
            crate::json::json_views(deltas@),
        ),
{
    let ghost ds = crate::json::json_views(deltas@);
    let ghost goal = updated_builders(builder_views(builders@), ds);
    let mut position: usize = 0;
    while position < deltas.len()
        invariant
            position <= deltas.len(),
            ds == crate::json::json_views(deltas@),
            updated_builders_from(builder_views(builders@), ds, position as int) == goal,
        decreases deltas.len() - position,
    {
        let slot: u64 = match deltas[position].get_u64("index") {
            Some(n) => n,
            None => position as u64,
        };
        assert(slot as int == delta_slot(ds[position as int], position as int));
        if slot < usize::MAX as u64 {
            apply_at(builders, slot as usize, &deltas[position]);
        }
        position += 1;
    }
}

/// The finished calls of the builders from index `i` on, in order; a builder
/// without a name yields none.
pub open spec fn finalized_from(builders: Seq<ToolCallBuilderV>, i: int) -> Seq<ToolCallV>
    decreases builders.len() - i,
{
    if 0 <= i < builders.len() {
        match builders[i].finalize(i as nat) {
            Some(call) => seq![call] + finalized_from(builders, i + 1),
            None => finalized_from(builders, i + 1),
        }
    } else {
        Seq::empty()
    }
}

/// The finished calls of a list of builders, or `None` when there is none.
pub open spec fn finalized_calls(builders: Seq<ToolCallBuilderV>) -> Option<Seq<ToolCallV>> {
    let calls = finalized_from(builders, 0);
    if calls.len() == 0 {
        None
    } else {
        Some(calls)
    }
}

/// Finishes every builder that has a name, in index order.
pub fn finalize_tool_calls(builders: Vec<ToolCallBuilder>) -> (r: Option<Vec<ToolCall>>)
    ensures
        crate::llm::provider::opt_tool_call_views(r) == finalized_calls(builder_views(builders@)),
{
    let ghost bs = builder_views(builders@);
    let mut calls: Vec<ToolCall> = Vec::new();
    let mut index: usize = 0;
    assert(crate::llm::provider::tool_call_views(calls@) =~= Seq::empty());
    while index < builders.len()
        invariant
            index <= builders.len(),
            bs == builder_views(builders@),
            crate::llm::provider::tool_call_views(calls@) + finalized_from(bs, index as int)
                == finalized_from(bs, 0),
        decreases builders.len() - index,
    {
        let ghost before = crate::llm::provider::tool_call_views(calls@);
        let builder = builders[index].duplicate();
        match builder.finalize(index) {
            Some(call) => {
                calls.push(call);
                assert(crate::llm::provider::tool_call_views(calls@) =~= before.push(call@));
                assert(before.push(call@) + finalized_from(bs, index + 1) =~= before + (seq![
                    call@,
                ] + finalized_from(bs, index + 1)));
            },
            None => {},
        }
        index += 1;
    }
    assert(crate::llm::provider::tool_call_views(calls@) =~= finalized_from(bs, 0));
    if calls.len() == 0 {
        None
    } else {
        Some(calls)
    }
}

/// Model of a [`StreamFragment`].
pub enum StreamFragmentV {
    Content(Seq<char>),
    Reasoning(Seq<char>),
}

/// A run of answer text or of reasoning text, as one payload delivered it.
#[derive(Debug)]
pub enum StreamFragment {
    Content(String),
    Reasoning(String),
}

impl View for StreamFragment {
    type V = StreamFragmentV;

    open spec fn view(&self) -> StreamFragmentV {
        match self {
            StreamFragment::Content(s) => StreamFragmentV::Content(s@),
            StreamFragment::Reasoning(s) => StreamFragmentV::Reasoning(s@),
        }
    }
}

/// The models of a sequence of fragments.
pub open spec fn fragment_views(fragments: Seq<StreamFragment>) -> Seq<StreamFragmentV> {
    Seq::new(fragments.len(), |i: int| fragments[i]@)
}

/// The fragments after answer text `text`: nothing changes for empty text,
/// a trailing run of answer text grows, otherwise a new run starts.
pub open spec fn with_content(fragments: Seq<StreamFragmentV>, text: Seq<char>) -> Seq<
    StreamFragmentV,
> {
    if text.len() == 0 {
        fragments
    } else if fragments.len() > 0 && fragments.last() is Content {
        fragments.update(
            fragments.len() - 1,
            StreamFragmentV::Content(fragments.last()->Content_0 + text),
        )
    } else {
        fragments.push(StreamFragmentV::Content(text))
    }
}

/// The fragments after reasoning text `text`: nothing changes for empty
/// text, a trailing run of reasoning text grows, otherwise a new run starts.
pub open spec fn with_reasoning(fragments: Seq<StreamFragmentV>, text: Seq<char>) -> Seq<
    StreamFragmentV,
> {
    if text.len() == 0 {
        fragments
    } else if fragments.len() > 0 && fragments.last() is Reasoning {
        fragments.update(
            fragments.len() - 1,
            StreamFragmentV::Reasoning(fragments.last()->Reasoning_0 + text),
        )
    } else {
        fragments.push(StreamFragmentV::Reasoning(text))
    }
}

/// The fragments one payload has produced, adjacent runs of one kind merged.
#[derive(Debug)]
pub struct StreamDelta {
    pub fragments: Vec<StreamFragment>,
}

impl View for StreamDelta {
    type V = Seq<StreamFragmentV>;

    open spec fn view(&self) -> Seq<StreamFragmentV> {
        fragment_views(self.fragments@)
    }
}

impl StreamDelta {
    /// No fragment.
    pub fn new() -> (r: StreamDelta)
        ensures
            r@ == Seq::<StreamFragmentV>::empty(),
    {
        let r = StreamDelta { fragments: Vec::new() };
        assert(r@ =~= Seq::empty());
        r
    }

    /// Adds answer text.
    pub fn push_content(&mut self, text: &str)
        ensures
            final(self)@ == with_content(old(self)@, text@),
    {
        if text.is_empty() {
            return ;
        }
        let ghost before = self@;
        let n = self.fragments.len();
        if n > 0 {
            let merged = match &self.fragments[n - 1] {
                StreamFragment::Content(existing) => Some(crate::text::concat(existing.as_str(), text)),
                _ => None,
            };
            if let Some(joined) = merged {
                self.fragments.set(n - 1, StreamFragment::Content(joined));
                assert(self@ =~= with_content(before, text@));
                return ;
            }
        }
        self.fragments.push(StreamFragment::Content(text.to_owned()));
        assert(self@ =~= with_content(before, text@));
    }

    /// Adds reasoning text.
    pub fn push_reasoning(&mut self, text: &str)
        ensures
            final(self)@ == with_reasoning(old(self)@, text@),
    {
        if text.is_empty() {
            return ;
        }
        let ghost before = self@;
        let n = self.fragments.len();
        if n > 0 {
            let merged = match &self.fragments[n - 1] {
                StreamFragment::Reasoning(existing) => Some(
                    crate::text::concat(existing.as_str(), text),
                ),
                _ => None,
            };
            if let Some(joined) = merged {
                self.fragments.set(n - 1, StreamFragment::Reasoning(joined));
                assert(self@ =~= with_reasoning(before, text@));
                return ;
            }
        }
        self.fragments.push(StreamFragment::Reasoning(text.to_owned()));
        assert(self@ =~= with_reasoning(before, text@));
    }

    /// Whether no fragment was produced.
    pub fn is_empty(&self) -> (r: bool)
        ensures
            r == (self@.len() == 0),
    {
        self.fragments.len() == 0
    }

    /// The fragments, in order.
    pub fn into_fragments(self) -> (r: Vec<StreamFragment>)
        ensures
            fragment_views(r@) == self@,
    {
        self.fragments
    }

    /// Appends the fragments of `other`, without merging across the seam.
    pub fn extend(&mut self, other: StreamDelta)
        ensures
            final(self)@ == old(self)@ + other@,
    {
        let mut other = other;
        let ghost before = self@;
        let ghost added = other@;
        self.fragments.append(&mut other.fragments);
        assert(self@ =~= before + added);
    }
}

/// Model of a [`ReasoningBuffer`].
pub struct ReasoningBufferV {
    pub text: Seq<char>,
    pub last_chunk: Option<Seq<char>>,
}

/// The reasoning text a stream has delivered, with the chunk accepted last.
#[derive(Debug)]
pub struct ReasoningBuffer {
    pub text: String,
    pub last_chunk: Option<String>,
}

impl View for ReasoningBuffer {
    type V = ReasoningBufferV;

    open spec fn view(&self) -> ReasoningBufferV {
        ReasoningBufferV {
            text: self.text@,
            last_chunk: crate::llm::provider::opt_text(self.last_chunk),
        }
    }
}

/// `chunk` from index `i` on, appended to `out` with every run of whitespace
/// turned into one space and none at either end of the whole.
pub open spec fn normalized_from(chunk: Seq<char>, i: int, out: Seq<char>) -> Seq<char>
    decreases chunk.len() - i,
{
    if 0 <= i < chunk.len() {
        if char_is_whitespace(chunk[i]) {
            normalized_from(chunk, i + 1, out)
        } else if out.len() > 0 && i > 0 && char_is_whitespace(chunk[i - 1]) {
            normalized_from(chunk, i + 1, out.push(' ').push(chunk[i]))
        } else {
            normalized_from(chunk, i + 1, out.push(chunk[i]))
        }
    } else {
        out
    }
}

/// `chunk` with every run of whitespace turned into one space and none at
/// either end.
pub open spec fn normalized_chunk(chunk: Seq<char>) -> Seq<char> {
    normalized_from(chunk, 0, Seq::empty())
}

/// Whether a character closes a clause or a bracket: `, . ! ? : ; ) ] }`.
pub open spec fn is_closing_punctuation(c: char) -> bool {
    c == ',' || c == '.' || c == '!' || c == '?' || c == ':' || c == ';' || c == ')' || c == ']'
        || c == '}'
}

/// Whether a character opens a bracket or joins two words: `( [ { / -`.
pub open spec fn is_connector(c: char) -> bool {
    c == '(' || c == '[' || c == '{' || c == '/' || c == '-'
}

/// Whether the first non-whitespace character of `chunk` closes a clause or
/// a bracket.
pub open spec fn leading_punctuation(chunk: Seq<char>) -> bool {
    let i = first_non_ws(chunk, 0);
    0 <= i < chunk.len() && is_closing_punctuation(chunk[i])
}

/// Whether the last non-whitespace character of `text` opens a bracket or
/// joins two words.
pub open spec fn trailing_connector(text: Seq<char>) -> bool {
    let i = last_non_ws_end(text, text.len() as int);
    0 < i <= text.len() && is_connector(text[i - 1])
}

/// Whether a space has to separate the buffer's text from `chunk`: the
/// buffer is not empty and does not end in whitespace, the chunk does not
/// start with whitespace or closing punctuation, and the buffer does not end
/// in a connector.
pub open spec fn needs_separator(text: Seq<char>, chunk: Seq<char>) -> bool {
    &&& text.len() > 0
    &&& !char_is_whitespace(text.last())
    &&& !(chunk.len() > 0 && char_is_whitespace(chunk[0]))
    &&& !leading_punctuation(chunk)
    &&& !trailing_connector(text)
}

impl ReasoningBufferV {
    /// The buffer that has received nothing.
    pub open spec fn empty() -> ReasoningBufferV {
        ReasoningBufferV { text: Seq::empty(), last_chunk: None }
    }

    /// What `chunk` adds to the text: nothing when it is blank or repeats
    /// the chunk accepted last, else its normalized form, after one space
    /// where a separator is needed.
    pub open spec fn delta_for(self, chunk: Seq<char>) -> Option<Seq<char>> {
        let normalized = normalized_chunk(chunk);
        if is_blank(chunk) || normalized.len() == 0 || self.last_chunk == Some(normalized) {
            None
        } else if needs_separator(self.text, chunk) {
            Some(seq![' '] + normalized)
        } else {
            Some(normalized)
        }
    }

    /// The buffer after `chunk`.
    pub open spec fn push(self, chunk: Seq<char>) -> ReasoningBufferV {
        match self.delta_for(chunk) {
            None => self,
            Some(delta) => ReasoningBufferV {
                text: self.text + delta,
                last_chunk: Some(normalized_chunk(chunk)),
            },
        }
    }

    /// The collected reasoning, trimmed; `None` when nothing is left.
    pub open spec fn finalize(self) -> Option<Seq<char>> {
        let trimmed = trim_spec(self.text);
        if trimmed.len() == 0 {
            None
        } else {
            Some(trimmed)
        }
    }
}

impl ReasoningBuffer {
    /// The buffer that has received nothing.
    pub fn new() -> (r: ReasoningBuffer)
        ensures
            r@ == ReasoningBufferV::empty(),
    {
        ReasoningBuffer { text: String::new(), last_chunk: None }
    }

    /// Takes one chunk of reasoning text and returns what it added to the
    /// buffer, if anything.
    pub fn push(&mut self, chunk: &str) -> (r: Option<String>)
        ensures
            crate::llm::provider::opt_text(r) == old(self)@.delta_for(chunk@),
            final(self)@ == old(self)@.push(chunk@),
    {
        let chars = chars_of(chunk);
        if is_blank_chars(chars.as_slice()) {
            return None;
        }
        let normalized = Self::normalize_chunk(chunk);
        if normalized.as_str().is_empty() {
            return None;
        }
        let repeated = match &self.last_chunk {
            Some(last) => str_eq(last.as_str(), normalized.as_str()),
            None => false,
        };
        if repeated {
            return None;
        }
        let text_chars = chars_of(self.text.as_str());
        let last_has_spacing = text_chars.len() > 0 && text_chars[text_chars.len() - 1].is_whitespace();
        let chunk_starts_with_space = chars.len() > 0 && chars[0].is_whitespace();
        let leading = Self::is_leading_punctuation(chunk);
        let trailing = Self::ends_with_connector(self.text.as_str());
        let mut delta = String::new();
        if text_chars.len() > 0 && !last_has_spacing && !chunk_starts_with_space && !leading
            && !trailing {
            delta.push(' ');
            assert(delta@ =~= seq![' ']);
        }
        delta.append(normalized.as_str());
        assert(Seq::<char>::empty() + normalized@ =~= normalized@);
        self.text.append(delta.as_str());
        self.last_chunk = Some(normalized);
        Some(delta)
    }

    /// The collected reasoning, trimmed; `None` when nothing is left.
    pub fn finalize(self) -> (r: Option<String>)
        ensures
            crate::llm::provider::opt_text(r) == self@.finalize(),
    {
        let chars = chars_of(self.text.as_str());
        let trimmed = trim_chars(chars.as_slice());
        if trimmed.len() == 0 {
            None
        } else {
            Some(string_of(trimmed.as_slice()))
        }
    }

    /// `chunk` with every run of whitespace turned into one space and none
    /// at either end.
    pub fn normalize_chunk(chunk: &str) -> (r: String)
        ensures
            r@ == normalized_chunk(chunk@),
    {
        let chars = chars_of(chunk);
        let mut out: Vec<char> = Vec::new();
        let mut i: usize = 0;
        while i < chars.len()
            invariant
                i <= chars.len(),
                chars@ == chunk@,
                normalized_from(chunk@, i as int, out@) == normalized_chunk(chunk@),
            decreases chars.len() - i,
        {
            let c = chars[i];
            if !c.is_whitespace() {
                if out.len() > 0 && i > 0 && chars[i - 1].is_whitespace() {
                    out.push(' ');
                }
                out.push(c);
            }
            i += 1;
        }
        string_of(out.as_slice())
    }

    /// Whether the first non-whitespace character of `chunk` closes a clause
    /// or a bracket.
    pub fn is_leading_punctuation(chunk: &str) -> (r: bool)
        ensures
            r == leading_punctuation(chunk@),
    {
        let chars = chars_of(chunk);
        let i = trim_start_index(chars.as_slice());
        if i < chars.len() {
            let c = chars[i];
            c == ',' || c == '.' || c == '!' || c == '?' || c == ':' || c == ';' || c == ')' || c
                == ']' || c == '}'
        } else {
            false
        }
    }

    /// Whether the last non-whitespace character of `text` opens a bracket
    /// or joins two words.
    pub fn ends_with_connector(text: &str) -> (r: bool)
        ensures
            r == trailing_connector(text@),
    {
        let chars = chars_of(text);
        let i = crate::text::trim_end_index(chars.as_slice());
        if i > 0 {
            let c = chars[i - 1];
            c == '(' || c == '[' || c == '{' || c == '/' || c == '-'
        } else {
            false
        }
    }

    /// A copy of this buffer.
    pub fn duplicate(&self) -> (r: ReasoningBuffer)
        ensures
            r@ == self@,
    {
        ReasoningBuffer {
            text: self.text.clone(),
            last_chunk: crate::llm::provider::duplicate_opt_text(&self.last_chunk),
        }
    }
}

/// The finish reason a provider's word stands for.
pub open spec fn finish_reason_of(reason: Seq<char>) -> FinishReasonV {
    if reason == "stop"@ || reason == "completed"@ || reason == "done"@ || reason == "finished"@ {
        FinishReasonV::Stop
    } else if reason == "length"@ {
        FinishReasonV::Length
    } else if reason == "tool_calls"@ {
        FinishReasonV::ToolCalls
    } else if reason == "content_filter"@ {
        FinishReasonV::ContentFilter
    } else {
        FinishReasonV::Error(reason)
    }
}

/// Maps a provider's word for the end of a response to a finish reason;
/// an unknown word is an error that carries it.
pub fn map_finish_reason(reason: &str) -> (r: FinishReason)
    ensures
        r@ == finish_reason_of(reason@),
{
    if str_eq(reason, "stop") || str_eq(reason, "completed") || str_eq(reason, "done") || str_eq(
        reason,
        "finished",
    ) {
        FinishReason::Stop
    } else if str_eq(reason, "length") {
        FinishReason::Length
    } else if str_eq(reason, "tool_calls") {
        FinishReason::ToolCalls
    } else if str_eq(reason, "content_filter") {
        FinishReason::ContentFilter
    } else {
        FinishReason::Error(reason.to_owned())
    }
}

/// The low 32 bits of a count.
pub open spec fn low_u32(n: u64) -> u32 {
    (n % 0x1_0000_0000) as u32
}

/// The count under `first`, or else under `second`, when it is an unsigned
/// integer.
pub open spec fn cache_count(value: JsonV, first: Seq<char>, second: Seq<char>) -> Option<u32> {
    let found = match value.get(first) {
        Some(v) => Some(v),
        None => value.get(second),
    };
    match found {
        Some(v) => match v.as_u64() {
            Some(n) => Some(low_u32(n)),
            None => None,
        },
        None => None,
    }
}

/// The count under `key`, zero when it is missing or no unsigned integer.
pub open spec fn token_count(value: JsonV, key: Seq<char>) -> u32 {
    match value.get_u64(key) {
        Some(n) => low_u32(n),
        None => 0,
    }
}

/// The usage a provider's `usage` object reports. Cache reads are mirrored
/// into both `cache_read_tokens` and `cached_prompt_tokens`.
pub open spec fn usage_of(value: JsonV) -> Usage {
    let read = cache_count(value, "prompt_cache_read_tokens"@, "cache_read_input_tokens"@);
    Usage {
        prompt_tokens: token_count(value, "prompt_tokens"@),
        completion_tokens: token_count(value, "completion_tokens"@),
        total_tokens: token_count(value, "total_tokens"@),
        cached_prompt_tokens: read,
        cache_creation_tokens: cache_count(
            value,
            "prompt_cache_write_tokens"@,
            "cache_creation_input_tokens"@,
        ),
        cache_read_tokens: read,
    }
}

fn read_token_count(value: &Json, key: &str) -> (r: u32)
    ensures
        r == token_count(value@, key@),
{
    match value.get_u64(key) {
        Some(n) => (n % 0x1_0000_0000) as u32,
        None => 0,
    }
}

fn read_cache_count(value: &Json, first: &str, second: &str) -> (r: Option<u32>)
    ensures
        r == cache_count(value@, first@, second@),
{
    let found = match value.get(first) {
        Some(v) => Some(v),
        None => value.get(second),
    };
    match found {
        Some(v) => match v.as_u64() {
            Some(n) => Some((n % 0x1_0000_0000) as u32),
            None => None,
        },
        None => None,
    }
}

/// Reads a provider's `usage` object.
pub fn parse_usage_value(value: &Json) -> (r: Usage)
    ensures
        r == usage_of(value@),
{
    let read = read_cache_count(value, "prompt_cache_read_tokens", "cache_read_input_tokens");
    let written = read_cache_count(
        value,
        "prompt_cache_write_tokens",
        "cache_creation_input_tokens",
    );
    Usage {
        prompt_tokens: read_token_count(value, "prompt_tokens"),
        completion_tokens: read_token_count(value, "completion_tokens"),
        total_tokens: read_token_count(value, "total_tokens"),
        cached_prompt_tokens: read,
        cache_creation_tokens: written,
        cache_read_tokens: read,
    }
}

/// Feeding the same chunk twice in a row adds it once: the second push
/// returns nothing and leaves the buffer as the first one left it.
pub proof fn lemma_repeated_chunk_is_dropped(buffer: ReasoningBufferV, chunk: Seq<char>)
    ensures
        buffer.push(chunk).delta_for(chunk) is None,
        buffer.push(chunk).push(chunk) == buffer.push(chunk),
{
}

/// After the same chunk is fed twice to a fresh buffer, the buffer holds
/// the normalized chunk exactly once.
pub proof fn lemma_fresh_buffer_holds_chunk_once(chunk: Seq<char>)
    requires
        !is_blank(chunk),
        normalized_chunk(chunk).len() > 0,
    ensures
        ReasoningBufferV::empty().push(chunk).push(chunk).text == normalized_chunk(chunk),
        ReasoningBufferV::empty().delta_for(chunk) == Some(normalized_chunk(chunk)),
{
    assert(Seq::<char>::empty() + normalized_chunk(chunk) =~= normalized_chunk(chunk));
}

/// One past the last character of `line` that is not a carriage return at
/// its end.
pub open spec fn cr_end(line: Seq<char>, to: int) -> int
    decreases to,
{
    if 0 < to <= line.len() && line[to - 1] == '\r' {
        cr_end(line, to - 1)
    } else {
        to
    }
}

/// `line` without the carriage returns at its end.
pub open spec fn strip_cr(line: Seq<char>) -> Seq<char> {
    line.subrange(0, cr_end(line, line.len() as int))
}

/// What a line of an event carries as data: the text after `data:`, without
/// leading whitespace. An empty line, a comment (a line that starts with
/// `:`) and any other field carry none.
pub open spec fn data_value(line: Seq<char>) -> Option<Seq<char>> {
    if line.len() == 0 || line[0] == ':' {
        None
    } else if "data:"@.is_prefix_of(line) {
        Some(trim_start_spec(line.subrange("data:"@.len() as int, line.len() as int)))
    } else {
        None
    }
}

/// The payload `acc` after one more line: the line's data, if it has any,
/// joined to what came before by a line feed.
pub open spec fn with_line(acc: Option<Seq<char>>, line: Seq<char>) -> Option<Seq<char>> {
    match data_value(strip_cr(line)) {
        None => acc,
        Some(value) => Some(
            match acc {
                None => value,
                Some(a) => a + seq!['\n'] + value,
            },
        ),
    }
}

/// The payload of `event` read from index `i` on, where the current line
/// started at `line_start` and the lines before it gave `acc`.
pub open spec fn payload_scan(
    event: Seq<char>,
    i: int,
    line_start: int,
    acc: Option<Seq<char>>,
) -> Option<Seq<char>>
    decreases event.len() - i,
{
    if 0 <= i < event.len() {
        if event[i] == '\n' {
            payload_scan(event, i + 1, i + 1, with_line(acc, event.subrange(line_start, i)))
        } else {
            payload_scan(event, i + 1, line_start, acc)
        }
    } else {
        with_line(acc, event.subrange(line_start, event.len() as int))
    }
}

/// The data payload of a server-sent event: the values of its `data:`
/// lines, joined by line feeds; `None` when it has no such line.
pub open spec fn data_payload(event: Seq<char>) -> Option<Seq<char>> {
    payload_scan(event, 0, 0, None)
}

fn add_line(acc: Option<Vec<char>>, line: &[char]) -> (r: Option<Vec<char>>)
    ensures
        opt_chars(r) == with_line(opt_chars(acc), line@),
{
    let mut end: usize = line.len();
    while end > 0 && line[end - 1] == '\r'
        invariant
            end <= line.len(),
            cr_end(line@, end as int) == cr_end(line@, line@.len() as int),
        decreases end,
    {
        end -= 1;
    }
    let stripped = slice_chars(line, 0, end);
    if stripped.len() == 0 || stripped[0] == ':' {
        return acc;
    }
    let prefix = chars_of("data:");
    if !crate::text::starts_with(stripped.as_slice(), prefix.as_slice()) {
        return acc;
    }
    let rest = slice_chars(stripped.as_slice(), prefix.len(), stripped.len());
    let start = trim_start_index(rest.as_slice());
    let value = slice_chars(rest.as_slice(), start, rest.len());
    match acc {
        None => Some(value),
        Some(a) => {
            let mut out = a;
            out.push('\n');
            crate::text::extend_chars(&mut out, value.as_slice());
            assert(out@ =~= a@ + seq!['\n'] + value@);
            Some(out)
        },
    }
}

/// The model of optional characters.
pub open spec fn opt_chars(v: Option<Vec<char>>) -> Option<Seq<char>> {
    match v {
        Some(c) => Some(c@),
        None => None,
    }
}

/// The data payload of a server-sent event: the values of its `data:`
/// lines, joined by line feeds; `None` when it has no such line.
pub fn extract_data_payload(event: &str) -> (r: Option<String>)
    ensures
        crate::llm::provider::opt_text(r) == data_payload(event@),
{
    let chars = chars_of(event);
    match extract_data_payload_chars(chars.as_slice()) {
        Some(v) => Some(string_of(v.as_slice())),
        None => None,
    }
}

/// [`extract_data_payload`] on characters.
pub fn extract_data_payload_chars(chars: &[char]) -> (r: Option<Vec<char>>)
    ensures
        opt_chars(r) == data_payload(chars@),
{
    let mut acc: Option<Vec<char>> = None;
    let mut line_start: usize = 0;
    let mut i: usize = 0;
    while i < chars.len()
        invariant
            line_start <= i <= chars.len(),
            payload_scan(chars@, i as int, line_start as int, opt_chars(acc)) == data_payload(
                chars@,
            ),
        decreases chars.len() - i,
    {
        if chars[i] == '\n' {
            let line = slice_chars(chars, line_start, i);
            acc = add_line(acc, line.as_slice());
            line_start = i + 1;
        }
        i += 1;
    }
    let line = slice_chars(chars, line_start, chars.len());
    add_line(acc, line.as_slice())
}

/// The length of the event delimiter that starts at index `i` of `buffer`:
/// a blank line, written with line feeds or with carriage returns and line
/// feeds.
pub open spec fn boundary_len_at(buffer: Seq<char>, i: int) -> Option<nat> {
    if crate::text::occurs_at(buffer, "\n\n"@, i) {
        Some("\n\n"@.len())
    } else if crate::text::occurs_at(buffer, "\r\n\r\n"@, i) {
        Some("\r\n\r\n"@.len())
    } else {
        None
    }
}

/// Whether `(i, len)` is the first event delimiter of `buffer`.
pub open spec fn is_first_boundary(buffer: Seq<char>, i: int, len: nat) -> bool {
    &&& boundary_len_at(buffer, i) == Some(len)
    &&& forall|j: int| 0 <= j < i ==> boundary_len_at(buffer, j) is None
}

/// Whether `buffer` holds no event delimiter.
pub open spec fn has_no_boundary(buffer: Seq<char>) -> bool {
    forall|j: int| 0 <= j ==> boundary_len_at(buffer, j) is None
}

/// Finds the first event delimiter in `buffer`: its index and its length.
pub fn find_sse_boundary(buffer: &[char]) -> (r: Option<(usize, usize)>)
    ensures
        match r {
            Some((i, len)) => is_first_boundary(buffer@, i as int, len as nat) && i + len
                <= buffer@.len() && len > 0,
            None => has_no_boundary(buffer@),
        },
{
    let lf = chars_of("\n\n");
    let crlf = chars_of("\r\n\r\n");
    proof {
        reveal_strlit("\n\n");
        reveal_strlit("\r\n\r\n");
    }
    let newline = crate::text::find_from(buffer, lf.as_slice(), 0);
    let carriage = crate::text::find_from(buffer, crlf.as_slice(), 0);
    match (newline, carriage) {
        (Some(n), Some(c)) => {
            if n <= c {
                assert(n != c) by {
                    if n == c {
                        assert(buffer@.subrange(n as int, n + 2)[0] == '\n');
                        assert(buffer@.subrange(c as int, c + 4)[0] == '\r');
                    }
                }
                Some((n, lf.len()))
            } else {
                assert(!crate::text::occurs_at(buffer@, "\n\n"@, c as int));
                Some((c, crlf.len()))
            }
        },
        (Some(n), None) => Some((n, lf.len())),
        (None, Some(c)) => Some((c, crlf.len())),
        (None, None) => None,
    }
}

/// Whether a part's `type` marks reasoning text.
pub open spec fn is_reasoning_type(ty: Seq<char>) -> bool {
    ty == "reasoning"@ || ty == "thinking"@ || ty == "analysis"@
}

/// Whether a part's `type` marks a tool-call fragment.
pub open spec fn is_tool_call_type(ty: Seq<char>) -> bool {
    ty == "tool_call_delta"@ || ty == "tool_call"@
}

fn check_reasoning_type(ty: &str) -> (r: bool)
    ensures
        r == is_reasoning_type(ty@),
{
    str_eq(ty, "reasoning") || str_eq(ty, "thinking") || str_eq(ty, "analysis")
}

fn check_tool_call_type(ty: &str) -> (r: bool)
    ensures
        r == is_tool_call_type(ty@),
{
    str_eq(ty, "tool_call_delta") || str_eq(ty, "tool_call")
}

/// `builders`, with empty builders added until there are at least `n`.
pub open spec fn grown_to(builders: Seq<ToolCallBuilderV>, n: int) -> Seq<ToolCallBuilderV> {
    if builders.len() >= n {
        builders
    } else {
        builders + Seq::new((n - builders.len()) as nat, |i: int| ToolCallBuilderV::empty())
    }
}

/// The object a tool-call fragment is read from: the member `tool_call`
/// when that is an object, else the container itself.
pub open spec fn tool_delta_source(container: JsonV) -> JsonV {
    match container.get("tool_call"@) {
        Some(JsonV::Object(keys, values)) => JsonV::Object(keys, values),
        _ => container,
    }
}

/// The builder index a tool-call fragment names: the `index` of the
/// member `tool_call` when that is an object, zero when `tool_call` is
/// anything else, and the container's own `index` when there is no such
/// member. A missing index is zero.
pub open spec fn tool_delta_index(container: JsonV) -> u64 {
    match container.get("tool_call"@) {
        Some(JsonV::Object(keys, values)) => match JsonV::Object(keys, values).get_u64("index"@) {
            Some(n) => n,
            None => 0,
        },
        Some(_) => 0,
        None => match container.get_u64("index"@) {
            Some(n) => n,
            None => 0,
        },
    }
}

/// The builders after the tool-call fragment in `container`: a nested
/// object `delta` is applied first; then, if the source has an `id` or a
/// `function`, the builder at the named index takes them, the list growing
/// by empty builders to reach it. An index that no list can hold is passed
/// over.
pub open spec fn tool_delta_applied(builders: Seq<ToolCallBuilderV>, container: JsonV) -> Seq<
    ToolCallBuilderV,
>
    decreases container,
{
    let after_nested = match container.get("delta"@) {
        Some(JsonV::Object(keys, values)) => tool_delta_applied(
            builders,
            JsonV::Object(keys, values),
        ),
        _ => builders,
    };
    let source = tool_delta_source(container);
    let index = tool_delta_index(container);
    if source.get("id"@) is None && source.get("function"@) is None {
        after_nested
    } else if index >= usize::MAX {
        after_nested
    } else {
        applied_at(after_nested, index as int, source)
    }
}

/// Applies the tool-call fragment in `container` to the builders.
pub fn apply_tool_call_delta_from_content(builders: &mut Vec<ToolCallBuilder>, container: &Json)
    ensures
        builder_views(final(builders)@) == tool_delta_applied(
            builder_views(old(builders)@),
            container@,
        ),
    decreases container,
{
    match container.get("delta") {
        Some(nested) => {
            if nested.is_object() {
                apply_tool_call_delta_from_content(builders, nested);
            }
        },
        None => {},
    }
    let ghost after_nested = builder_views(builders@);
    let (index, source): (u64, &Json) = match container.get("tool_call") {
        Some(tool_call) => {
            if tool_call.is_object() {
                let idx = match tool_call.get_u64("index") {
                    Some(n) => n,
                    None => 0,
                };
                (idx, tool_call)
            } else {
                (0, container)
            }
        },
        None => {
            let idx = match container.get_u64("index") {
                Some(n) => n,
                None => 0,
            };
            (idx, container)
        },
    };
    assert(source@ == tool_delta_source(container@));
    assert(index == tool_delta_index(container@));
    if source.get("id").is_none() && source.get("function").is_none() {
        return ;
    }
    if index >= usize::MAX as u64 {
        return ;
    }
    apply_at(builders, index as usize, source);
}

/// What a walk over the content of a payload has gathered: the answer text,
/// the reasoning, the tool calls under assembly, and the fragments to emit.
pub struct WalkV {
    pub content: Seq<char>,
    pub reasoning: ReasoningBufferV,
    pub builders: Seq<ToolCallBuilderV>,
    pub deltas: Seq<StreamFragmentV>,
}

impl WalkV {
    /// The walk after answer text; empty text changes nothing.
    pub open spec fn text(self, t: Seq<char>) -> WalkV {
        if t.len() == 0 {
            self
        } else {
            WalkV { content: self.content + t, deltas: with_content(self.deltas, t), ..self }
        }
    }

    /// The walk after reasoning text: the buffer takes the chunk, and what
    /// it added, if anything, is a fragment to emit.
    pub open spec fn thought(self, t: Seq<char>) -> WalkV {
        WalkV {
            reasoning: self.reasoning.push(t),
            deltas: match self.reasoning.delta_for(t) {
                Some(d) => with_reasoning(self.deltas, d),
                None => self.deltas,
            },
            ..self
        }
    }

    /// The walk after the tool-call fragment in `container`.
    pub open spec fn tool_delta(self, container: JsonV) -> WalkV {
        WalkV { builders: tool_delta_applied(self.builders, container), ..self }
    }
}

/// The walk after a content value: text is answer text, an array is walked
/// item by item, an object is walked as [`content_object`] says, and
/// anything else adds nothing.
pub open spec fn content_value(value: JsonV, w: WalkV) -> WalkV
    decreases value, 1int,
{
    match value {
        JsonV::Str(t) => w.text(t),
        JsonV::Array(items) => content_items(items, 0, w),
        JsonV::Object(keys, values) => content_object(JsonV::Object(keys, values), w),
        _ => w,
    }
}

/// The walk after the items of an array from index `i` on.
pub open spec fn content_items(items: Seq<JsonV>, i: int, w: WalkV) -> WalkV
    decreases items, items.len() - i,
{
    if 0 <= i < items.len() {
        content_items(items, i + 1, content_value(items[i], w))
    } else {
        w
    }
}

/// The walk after a content object. A part typed as reasoning gives its
/// `text` (or else its `output_text`) to the reasoning buffer; a part typed
/// as a tool call, or one with an object `tool_call`, is a tool-call
/// fragment; otherwise the first of `text`, `output_text` and
/// `output_text_delta` that is text is answer text; otherwise the members
/// `content`, `items`, `output`, `outputs` and `delta` are walked in that
/// order.
pub open spec fn content_object(obj: JsonV, w: WalkV) -> WalkV
    decreases obj, 0int,
{
    let ty = obj.get_str("type"@);
    if ty is Some && is_reasoning_type(ty->0) {
        match obj.get_str("text"@) {
            Some(t) => w.thought(t),
            None => match obj.get_str("output_text"@) {
                Some(t) => w.thought(t),
                None => w,
            },
        }
    } else if ty is Some && is_tool_call_type(ty->0) {
        w.tool_delta(obj)
    } else if obj.get("tool_call"@) is Some && obj.get("tool_call"@)->0 is Object {
        w.tool_delta(obj.get("tool_call"@)->0)
    } else if obj.get_str("text"@) is Some {
        w.text(obj.get_str("text"@)->0)
    } else if obj.get_str("output_text"@) is Some {
        w.text(obj.get_str("output_text"@)->0)
    } else if obj.get_str("output_text_delta"@) is Some {
        w.text(obj.get_str("output_text_delta"@)->0)
    } else {
        let w1 = match obj.get("content"@) {
            Some(inner) => content_value(inner, w),
            None => w,
        };
        let w2 = match obj.get("items"@) {
            Some(inner) => content_value(inner, w1),
            None => w1,
        };
        let w3 = match obj.get("output"@) {
            Some(inner) => content_value(inner, w2),
            None => w2,
        };
        let w4 = match obj.get("outputs"@) {
            Some(inner) => content_value(inner, w3),
            None => w3,
        };
        match obj.get("delta"@) {
            Some(inner) => content_value(inner, w4),
            None => w4,
        }
    }
}

/// The walk that four pieces of decoder state stand for.
pub open spec fn walk_of(
    content: String,
    reasoning: ReasoningBuffer,
    builders: Vec<ToolCallBuilder>,
    deltas: StreamDelta,
) -> WalkV {
    WalkV {
        content: content@,
        reasoning: reasoning@,
        builders: builder_views(builders@),
        deltas: deltas@,
    }
}

fn push_text(aggregated_content: &mut String, deltas: &mut StreamDelta, text: &str)
    ensures
        final(aggregated_content)@ == if text@.len() == 0 {
            old(aggregated_content)@
        } else {
            old(aggregated_content)@ + text@
        },
        final(deltas)@ == with_content(old(deltas)@, text@),
{
    if !text.is_empty() {
        aggregated_content.append(text);
        deltas.push_content(text);
    }
}

fn push_thought(reasoning: &mut ReasoningBuffer, deltas: &mut StreamDelta, text: &str)
    ensures
        final(reasoning)@ == old(reasoning)@.push(text@),
        final(deltas)@ == match old(reasoning)@.delta_for(text@) {
            Some(d) => with_reasoning(old(deltas)@, d),
            None => old(deltas)@,
        },
{
    if let Some(delta) = reasoning.push(text) {
        deltas.push_reasoning(delta.as_str());
    }
}

/// Walks a content object.
pub fn process_content_object(
    map: &Json,
    aggregated_content: &mut String,
    reasoning: &mut ReasoningBuffer,
    tool_call_builders: &mut Vec<ToolCallBuilder>,
    deltas: &mut StreamDelta,
)
    requires
        map@ is Object,
    ensures
        walk_of(
            *final(aggregated_content),
            *final(reasoning),
            *final(tool_call_builders),
            *final(deltas),
        ) == content_object(
            map@,
            walk_of(
                *old(aggregated_content),
                *old(reasoning),
                *old(tool_call_builders),
                *old(deltas),
            ),
        ),
    decreases map, 0int,
{
    if let Some(content_type) = map.get_str("type") {
        if check_reasoning_type(content_type) {
            if let Some(text_value) = map.get_str("text") {
                push_thought(reasoning, deltas, text_value);
            } else if let Some(text_value) = map.get_str("output_text") {
                push_thought(reasoning, deltas, text_value);
            }
            return ;
        }
        if check_tool_call_type(content_type) {
            apply_tool_call_delta_from_content(tool_call_builders, map);
            return ;
        }
    }
    if let Some(tool_call_value) = map.get("tool_call") {
        if tool_call_value.is_object() {
            apply_tool_call_delta_from_content(tool_call_builders, tool_call_value);
            return ;
        }
    }
    if let Some(text_value) = map.get_str("text") {
        push_text(aggregated_content, deltas, text_value);
        return ;
    }
    if let Some(text_value) = map.get_str("output_text") {
        push_text(aggregated_content, deltas, text_value);
        return ;
    }
    if let Some(text_value) = map.get_str("output_text_delta") {
        push_text(aggregated_content, deltas, text_value);
        return ;
    }
    if let Some(inner) = map.get("content") {
        process_content_value(inner, aggregated_content, reasoning, tool_call_builders, deltas);
    }
    if let Some(inner) = map.get("items") {
        process_content_value(inner, aggregated_content, reasoning, tool_call_builders, deltas);
    }
    if let Some(inner) = map.get("output") {
        process_content_value(inner, aggregated_content, reasoning, tool_call_builders, deltas);
    }
    if let Some(inner) = map.get("outputs") {
        process_content_value(inner, aggregated_content, reasoning, tool_call_builders, deltas);
    }
    if let Some(inner) = map.get("delta") {
        process_content_value(inner, aggregated_content, reasoning, tool_call_builders, deltas);
    }
}

/// Walks one part of a content array: text is answer text, an object and an
/// array are walked, anything else adds nothing.
pub fn process_content_part(
    part: &Json,
    aggregated_content: &mut String,
    reasoning: &mut ReasoningBuffer,
    tool_call_builders: &mut Vec<ToolCallBuilder>,
    deltas: &mut StreamDelta,
)
    ensures
        walk_of(
            *final(aggregated_content),
            *final(reasoning),
            *final(tool_call_builders),
            *final(deltas),
        ) == content_value(
            part@,
            walk_of(
                *old(aggregated_content),
                *old(reasoning),
                *old(tool_call_builders),
                *old(deltas),
            ),
        ),
    decreases part, 2int,
{
    process_content_value(part, aggregated_content, reasoning, tool_call_builders, deltas);
}

/// Walks a content value.
pub fn process_content_value(
    value: &Json,
    aggregated_content: &mut String,
    reasoning: &mut ReasoningBuffer,
    tool_call_builders: &mut Vec<ToolCallBuilder>,
    deltas: &mut StreamDelta,
)
    ensures
        walk_of(
            *final(aggregated_content),
            *final(reasoning),
            *final(tool_call_builders),
            *final(deltas),
        ) == content_value(
            value@,
            walk_of(
                *old(aggregated_content),
                *old(reasoning),
                *old(tool_call_builders),
                *old(deltas),
            ),
        ),
    decreases value, 1int,
{
    let ghost start = walk_of(*aggregated_content, *reasoning, *tool_call_builders, *deltas);
    match value {
        Json::Str(text) => {
            push_text(aggregated_content, deltas, text.as_str());
        },
        Json::Array(parts) => {
            let ghost items = value@->Array_0;
            let mut i: usize = 0;
            while i < parts.len()
                invariant
                    i <= parts.len(),
                    value@ == JsonV::Array(items),
                    items == crate::json::json_views(parts@),
                    forall|k: int|
                        0 <= k < parts@.len() ==> decreases_to!(value => #[trigger] parts@[k]),
                    content_items(
                        items,
                        i as int,
                        walk_of(*aggregated_content, *reasoning, *tool_call_builders, *deltas),
                    ) == content_items(items, 0, start),
                decreases parts.len() - i,
            {
                process_content_part(
                    &parts[i],
                    aggregated_content,
                    reasoning,
                    tool_call_builders,
                    deltas,
                );
                i += 1;
            }
        },
        Json::Object(_) => {
            process_content_object(value, aggregated_content, reasoning, tool_call_builders, deltas);
        },
        _ => {},
    }
}

/// The models of a sequence of character vectors.
pub open spec fn chars_views(items: Seq<Vec<char>>) -> Seq<Seq<char>> {
    Seq::new(items.len(), |i: int| items[i]@)
}

/// The segments `acc` after one more text: the text is trimmed, and dropped
/// when nothing is left or when it repeats the segment before it.
pub open spec fn with_segment(acc: Seq<Seq<char>>, text: Seq<char>) -> Seq<Seq<char>> {
    let trimmed = trim_spec(text);
    if trimmed.len() == 0 || (acc.len() > 0 && acc.last() == trimmed) {
        acc
    } else {
        acc.push(trimmed)
    }
}

/// The reasoning segments of a value, added to `acc`: a text is a segment,
/// an array gives the segments of its items, an object those of its
/// members as [`trace_object`] says.
pub open spec fn trace_value(value: JsonV, acc: Seq<Seq<char>>) -> Seq<Seq<char>>
    decreases value, 1int,
{
    match value {
        JsonV::Str(t) => with_segment(acc, t),
        JsonV::Array(items) => trace_items(items, 0, acc),
        JsonV::Object(keys, values) => trace_object(JsonV::Object(keys, values), acc),
        _ => acc,
    }
}

/// The reasoning segments of the values from index `i` on, added to `acc`.
pub open spec fn trace_items(items: Seq<JsonV>, i: int, acc: Seq<Seq<char>>) -> Seq<Seq<char>>
    decreases items, items.len() - i,
{
    if 0 <= i < items.len() {
        trace_items(items, i + 1, trace_value(items[i], acc))
    } else {
        acc
    }
}

/// Whether an object has one of the members that carry reasoning.
pub open spec fn has_trace_member(obj: JsonV) -> bool {
    obj.has("text"@) || obj.has("content"@) || obj.has("reasoning"@) || obj.has("thought"@)
        || obj.has("thinking"@) || obj.has("value"@)
}

/// The reasoning segments of an object, added to `acc`: those of its
/// members `text`, `content`, `reasoning`, `thought`, `thinking` and
/// `value`, in that order; where it has none of these, those of all its
/// members.
pub open spec fn trace_object(obj: JsonV, acc: Seq<Seq<char>>) -> Seq<Seq<char>>
    decreases obj, 0int,
{
    if has_trace_member(obj) {
        let a1 = match obj.get("text"@) {
            Some(inner) => trace_value(inner, acc),
            None => acc,
        };
        let a2 = match obj.get("content"@) {
            Some(inner) => trace_value(inner, a1),
            None => a1,
        };
        let a3 = match obj.get("reasoning"@) {
            Some(inner) => trace_value(inner, a2),
            None => a2,
        };
        let a4 = match obj.get("thought"@) {
            Some(inner) => trace_value(inner, a3),
            None => a3,
        };
        let a5 = match obj.get("thinking"@) {
            Some(inner) => trace_value(inner, a4),
            None => a4,
        };
        match obj.get("value"@) {
            Some(inner) => trace_value(inner, a5),
            None => a5,
        }
    } else {
        match obj {
            JsonV::Object(keys, values) => trace_items(values, 0, acc),
            _ => acc,
        }
    }
}

/// The segments from index `i` on, each on a line of its own, added to
/// `out`.
pub open spec fn joined_from(segments: Seq<Seq<char>>, i: int, out: Seq<char>) -> Seq<char>
    decreases segments.len() - i,
{
    if 0 <= i < segments.len() {
        if i > 0 {
            joined_from(segments, i + 1, out + seq!['\n'] + segments[i])
        } else {
            joined_from(segments, i + 1, out + segments[i])
        }
    } else {
        out
    }
}

/// The segments, joined by line feeds.
pub open spec fn joined_lines(segments: Seq<Seq<char>>) -> Seq<char> {
    joined_from(segments, 0, Seq::empty())
}

/// The reasoning a value carries: its segments joined by line feeds and
/// trimmed; `None` when nothing is left.
pub open spec fn reasoning_trace(value: JsonV) -> Option<Seq<char>> {
    let text = trim_spec(joined_lines(trace_value(value, Seq::empty())));
    if text.len() == 0 {
        None
    } else {
        Some(text)
    }
}

fn add_segment(segments: &mut Vec<Vec<char>>, text: &str)
    ensures
        chars_views(final(segments)@) == with_segment(chars_views(old(segments)@), text@),
{
    let chars = chars_of(text);
    let trimmed = trim_chars(chars.as_slice());
    if trimmed.len() == 0 {
        return ;
    }
    let n = segments.len();
    if n > 0 && crate::text::chars_eq(segments[n - 1].as_slice(), trimmed.as_slice()) {
        return ;
    }
    let ghost before = chars_views(segments@);
    segments.push(trimmed);
    assert(chars_views(segments@) =~= before.push(trimmed@));
}

fn collect_trace_object(obj: &Json, segments: &mut Vec<Vec<char>>)
    requires
        obj@ is Object,
    ensures
        chars_views(final(segments)@) == trace_object(obj@, chars_views(old(segments)@)),
    decreases obj, 0int,
{
    let mut matched = false;
    if let Some(inner) = obj.get("text") {
        collect_trace_value(inner, segments);
        matched = true;
    }
    if let Some(inner) = obj.get("content") {
        collect_trace_value(inner, segments);
        matched = true;
    }
    if let Some(inner) = obj.get("reasoning") {
        collect_trace_value(inner, segments);
        matched = true;
    }
    if let Some(inner) = obj.get("thought") {
        collect_trace_value(inner, segments);
        matched = true;
    }
    if let Some(inner) = obj.get("thinking") {
        collect_trace_value(inner, segments);
        matched = true;
    }
    if let Some(inner) = obj.get("value") {
        collect_trace_value(inner, segments);
        matched = true;
    }
    if !matched {
        if let Some(fields) = obj.as_object() {
            let ghost start = chars_views(segments@);
            let ghost values = crate::json::field_values(fields@);
            let mut i: usize = 0;
            while i < fields.len()
                invariant
                    i <= fields.len(),
                    values == crate::json::field_values(fields@),
                    forall|k: int|
                        0 <= k < fields@.len() ==> decreases_to!(obj => #[trigger] fields@[k].1),
                    trace_items(values, i as int, chars_views(segments@)) == trace_items(
                        values,
                        0,
                        start,
                    ),
                decreases fields.len() - i,
            {
                collect_trace_value(&fields[i].1, segments);
                i += 1;
            }
        }
    }
}

fn collect_trace_value(value: &Json, segments: &mut Vec<Vec<char>>)
    ensures
        chars_views(final(segments)@) == trace_value(value@, chars_views(old(segments)@)),
    decreases value, 1int,
{
    match value {
        Json::Str(text) => {
            add_segment(segments, text.as_str());
        },
        Json::Array(items) => {
            let ghost start = chars_views(segments@);
            let ghost views = value@->Array_0;
            let mut i: usize = 0;
            while i < items.len()
                invariant
                    i <= items.len(),
                    value@ == JsonV::Array(views),
                    views == crate::json::json_views(items@),
                    forall|k: int|
                        0 <= k < items@.len() ==> decreases_to!(value => #[trigger] items@[k]),
                    trace_items(views, i as int, chars_views(segments@)) == trace_items(
                        views,
                        0,
                        start,
                    ),
                decreases items.len() - i,
            {
                collect_trace_value(&items[i], segments);
                i += 1;
            }
        },
        Json::Object(_) => {
            collect_trace_object(value, segments);
        },
        _ => {},
    }
}

/// The segments, joined by line feeds.
pub fn join_segment_lines(segments: &Vec<Vec<char>>) -> (r: Vec<char>)
    ensures
        r@ == joined_lines(chars_views(segments@)),
{
    let ghost views = chars_views(segments@);
    let mut out: Vec<char> = Vec::new();
    let mut i: usize = 0;
    while i < segments.len()
        invariant
            i <= segments.len(),
            views == chars_views(segments@),
            joined_from(views, i as int, out@) == joined_lines(views),
        decreases segments.len() - i,
    {
        let ghost before = out@;
        if i > 0 {
            out.push('\n');
        }
        crate::text::extend_chars(&mut out, segments[i].as_slice());
        proof {
            if i > 0 {
                assert(out@ =~= before + seq!['\n'] + views[i as int]);
            }
        }
        i += 1;
    }
    out
}

/// The reasoning a value carries: the texts found in it, trimmed, without
/// immediate repeats, joined by line feeds; `None` when nothing is left.
pub fn extract_reasoning_trace(value: &Json) -> (r: Option<String>)
    ensures
        crate::llm::provider::opt_text(r) == reasoning_trace(value@),
{
    let mut segments: Vec<Vec<char>> = Vec::new();
    assert(chars_views(segments@) =~= Seq::empty());
    collect_trace_value(value, &mut segments);
    let joined = join_segment_lines(&segments);
    let trimmed = trim_chars(joined.as_slice());
    if trimmed.len() == 0 {
        None
    } else {
        Some(string_of(trimmed.as_slice()))
    }
}

impl WalkV {
    /// The walk after a reasoning value: its reasoning trace goes to the
    /// buffer, or else its member `text`.
    pub open spec fn thought_value(self, value: JsonV) -> WalkV {
        match reasoning_trace(value) {
            Some(t) => self.thought(t),
            None => match value.get_str("text"@) {
                Some(t) => self.thought(t),
                None => self,
            },
        }
    }
}

/// Gives the reasoning a value carries to the buffer.
pub fn push_reasoning_value(
    reasoning: &mut ReasoningBuffer,
    value: &Json,
    deltas: &mut StreamDelta,
)
    ensures
        final(reasoning)@ == match reasoning_trace(value@) {
            Some(t) => old(reasoning)@.push(t),
            None => match value@.get_str("text"@) {
                Some(t) => old(reasoning)@.push(t),
                None => old(reasoning)@,
            },
        },
        final(deltas)@ == match reasoning_trace(value@) {
            Some(t) => match old(reasoning)@.delta_for(t) {
                Some(d) => with_reasoning(old(deltas)@, d),
                None => old(deltas)@,
            },
            None => match value@.get_str("text"@) {
                Some(t) => match old(reasoning)@.delta_for(t) {
                    Some(d) => with_reasoning(old(deltas)@, d),
                    None => old(deltas)@,
                },
                None => old(deltas)@,
            },
        },
{
    if let Some(reasoning_text) = extract_reasoning_trace(value) {
        push_thought(reasoning, deltas, reasoning_text.as_str());
    } else if let Some(text_value) = value.get_str("text") {
        push_thought(reasoning, deltas, text_value);
    }
}

/// The first entry of a payload's `choices`.
pub open spec fn first_choice(payload: JsonV) -> Option<JsonV> {
    match payload.get("choices"@) {
        Some(JsonV::Array(items)) => if items.len() > 0 {
            Some(items[0])
        } else {
            None
        },
        _ => None,
    }
}

/// The walk after the `delta` of a chat-completion choice: its `content`,
/// then its `reasoning`, then its `tool_calls`.
pub open spec fn chat_delta_walk(delta: JsonV, w: WalkV) -> WalkV {
    let a = match delta.get("content"@) {
        Some(c) => content_value(c, w),
        None => w,
    };
    let b = match delta.get("reasoning"@) {
        Some(r) => a.thought_value(r),
        None => a,
    };
    match delta.get("tool_calls"@) {
        Some(JsonV::Array(items)) => WalkV { builders: updated_builders(b.builders, items), ..b },
        _ => b,
    }
}

/// The walk after a payload read as a chat-completion chunk: the `delta` of
/// its first choice, then that choice's own `reasoning`.
pub open spec fn chat_walk(payload: JsonV, w: WalkV) -> WalkV {
    match first_choice(payload) {
        None => w,
        Some(choice) => {
            let w1 = match choice.get("delta"@) {
                Some(delta) => chat_delta_walk(delta, w),
                None => w,
            };
            match choice.get("reasoning"@) {
                Some(r) => w1.thought_value(r),
                None => w1,
            }
        },
    }
}

/// The finish reason after a payload read as a chat-completion chunk.
pub open spec fn chat_finish(payload: JsonV, finish: FinishReasonV) -> FinishReasonV {
    match first_choice(payload) {
        Some(choice) => match choice.get_str("finish_reason"@) {
            Some(r) => finish_reason_of(r),
            None => finish,
        },
        None => finish,
    }
}

/// Reads a payload as a chat-completion chunk and returns the fragments it
/// produced.
pub fn parse_chat_completion_chunk(
    payload: &Json,
    aggregated_content: &mut String,
    tool_call_builders: &mut Vec<ToolCallBuilder>,
    reasoning: &mut ReasoningBuffer,
    finish_reason: &mut FinishReason,
) -> (deltas: StreamDelta)
    ensures
        walk_of(*final(aggregated_content), *final(reasoning), *final(tool_call_builders), deltas)
            == chat_walk(
            payload@,
            WalkV {
                content: old(aggregated_content)@,
                reasoning: old(reasoning)@,
                builders: builder_views(old(tool_call_builders)@),
                deltas: Seq::empty(),
            },
        ),
        final(finish_reason)@ == chat_finish(payload@, old(finish_reason)@),
{
    let mut deltas = StreamDelta::new();
    let choices = match payload.get("choices") {
        Some(c) => match c.as_array() {
            Some(items) => items,
            None => {
                return deltas;
            },
        },
        None => {
            return deltas;
        },
    };
    if choices.len() == 0 {
        return deltas;
    }
    let choice = &choices[0];
    if let Some(delta) = choice.get("delta") {
        if let Some(content_value) = delta.get("content") {
            process_content_value(
                content_value,
                aggregated_content,
                reasoning,
                tool_call_builders,
                &mut deltas,
            );
        }
        if let Some(reasoning_value) = delta.get("reasoning") {
            push_reasoning_value(reasoning, reasoning_value, &mut deltas);
        }
        if let Some(tool_calls_value) = delta.get("tool_calls") {
            if let Some(items) = tool_calls_value.as_array() {
                update_tool_calls(tool_call_builders, items.as_slice());
            }
        }
    }
    if let Some(reasoning_value) = choice.get("reasoning") {
        push_reasoning_value(reasoning, reasoning_value, &mut deltas);
    }
    if let Some(reason) = choice.get_str("finish_reason") {
        *finish_reason = map_finish_reason(reason);
    }
    deltas
}

/// Whether a payload's `type` says that the response is complete.
pub open spec fn is_completion_type(ty: Seq<char>) -> bool {
    ty == "response.completed"@ || ty == "response.done"@ || ty == "response.finished"@
}

fn check_completion_type(ty: &str) -> (r: bool)
    ensures
        r == is_completion_type(ty@),
{
    str_eq(ty, "response.completed") || str_eq(ty, "response.done") || str_eq(
        ty,
        "response.finished",
    )
}

/// The content a final response object carries: its `output_text`, or else
/// its `output`, or else its `content`.
pub open spec fn response_content(response: JsonV) -> Option<JsonV> {
    match response.get("output_text"@) {
        Some(v) => Some(v),
        None => match response.get("output"@) {
            Some(v) => Some(v),
            None => response.get("content"@),
        },
    }
}

/// The walk after what a payload's `type` asks for: a reasoning delta goes
/// to the buffer, a tool-call delta to the builders, and a completed
/// response is walked when no answer text has arrived yet.
pub open spec fn response_event_walk(payload: JsonV, w: WalkV) -> WalkV {
    match payload.get_str("type"@) {
        None => w,
        Some(ty) => if ty == "response.reasoning.delta"@ {
            match payload.get("delta"@) {
                Some(d) => w.thought_value(d),
                None => w,
            }
        } else if ty == "response.tool_call.delta"@ {
            match payload.get("delta"@) {
                Some(JsonV::Object(keys, values)) => w.tool_delta(JsonV::Object(keys, values)),
                _ => w,
            }
        } else if is_completion_type(ty) {
            match payload.get("response"@) {
                Some(response) => if w.content.len() == 0 {
                    content_value(response, w)
                } else {
                    w
                },
                None => w,
            }
        } else {
            w
        },
    }
}

/// The walk after a payload read as a response event: its `delta` is
/// walked as content, then its `type` is served, then the content of its
/// `response` is walked when no answer text has arrived yet, then its
/// `reasoning` goes to the buffer.
pub open spec fn response_walk(payload: JsonV, w: WalkV) -> WalkV {
    let w1 = match payload.get("delta"@) {
        Some(d) => content_value(d, w),
        None => w,
    };
    let w2 = response_event_walk(payload, w1);
    let w3 = match payload.get("response"@) {
        Some(response) => if w2.content.len() == 0 {
            match response_content(response) {
                Some(c) => content_value(c, w2),
                None => w2,
            }
        } else {
            w2
        },
        None => w2,
    };
    match payload.get("reasoning"@) {
        Some(r) => w3.thought_value(r),
        None => w3,
    }
}

/// The finish reason after a payload read as a response event: that of a
/// completed response's `stop_reason`, or else of its `status`.
pub open spec fn response_finish(payload: JsonV, finish: FinishReasonV) -> FinishReasonV {
    match payload.get_str("type"@) {
        Some(ty) => if is_completion_type(ty) {
            match payload.get("response"@) {
                Some(response) => match response.get_str("stop_reason"@) {
                    Some(r) => finish_reason_of(r),
                    None => match response.get_str("status"@) {
                        Some(r) => finish_reason_of(r),
                        None => finish,
                    },
                },
                None => finish,
            }
        } else {
            finish
        },
        None => finish,
    }
}

/// Reads a payload as a response event and returns the fragments it
/// produced.
pub fn parse_response_chunk(
    payload: &Json,
    aggregated_content: &mut String,
    tool_call_builders: &mut Vec<ToolCallBuilder>,
    reasoning: &mut ReasoningBuffer,
    finish_reason: &mut FinishReason,
) -> (deltas: StreamDelta)
    ensures
        walk_of(*final(aggregated_content), *final(reasoning), *final(tool_call_builders), deltas)
            == response_walk(
            payload@,
            WalkV {
                content: old(aggregated_content)@,
                reasoning: old(reasoning)@,
                builders: builder_views(old(tool_call_builders)@),
                deltas: Seq::empty(),
            },
        ),
        final(finish_reason)@ == response_finish(payload@, old(finish_reason)@),
{
    let mut deltas = StreamDelta::new();
    if let Some(delta_value) = payload.get("delta") {
        process_content_value(
            delta_value,
            aggregated_content,
            reasoning,
            tool_call_builders,
            &mut deltas,
        );
    }
    proof {
        reveal_strlit("response.reasoning.delta");
        reveal_strlit("response.tool_call.delta");
        reveal_strlit("response.completed");
        reveal_strlit("response.done");
        reveal_strlit("response.finished");
        assert("response.reasoning.delta"@.len() == 24);
        assert("response.tool_call.delta"@.len() == 24);
        assert("response.completed"@.len() == 18);
        assert("response.done"@.len() == 13);
        assert("response.finished"@.len() == 17);
        assert(!is_completion_type("response.reasoning.delta"@));
        assert(!is_completion_type("response.tool_call.delta"@));
    }
    if let Some(event_type) = payload.get_str("type") {
        if str_eq(event_type, "response.reasoning.delta") {
            if let Some(delta_value) = payload.get("delta") {
                push_reasoning_value(reasoning, delta_value, &mut deltas);
            }
        } else if str_eq(event_type, "response.tool_call.delta") {
            if let Some(delta_object) = payload.get("delta") {
                if delta_object.is_object() {
                    apply_tool_call_delta_from_content(tool_call_builders, delta_object);
                }
            }
        } else if check_completion_type(event_type) {
            if let Some(response_obj) = payload.get("response") {
                if aggregated_content.as_str().is_empty() {
                    process_content_value(
                        response_obj,
                        aggregated_content,
                        reasoning,
                        tool_call_builders,
                        &mut deltas,
                    );
                }
                if let Some(reason) = response_obj.get_str("stop_reason") {
                    *finish_reason = map_finish_reason(reason);
                } else if let Some(reason) = response_obj.get_str("status") {
                    *finish_reason = map_finish_reason(reason);
                }
            }
        }
    }
    if let Some(response_obj) = payload.get("response") {
        if aggregated_content.as_str().is_empty() {
            let content_value = match response_obj.get("output_text") {
                Some(v) => Some(v),
                None => match response_obj.get("output") {
                    Some(v) => Some(v),
                    None => response_obj.get("content"),
                },
            };
            if let Some(content_value) = content_value {
                process_content_value(
                    content_value,
                    aggregated_content,
                    reasoning,
                    tool_call_builders,
                    &mut deltas,
                );
            }
        }
    }
    if let Some(reasoning_value) = payload.get("reasoning") {
        push_reasoning_value(reasoning, reasoning_value, &mut deltas);
    }
    deltas
}

/// The usage after a source object: what its `usage` reports, if it has
/// one.
pub open spec fn usage_after(source: JsonV, usage: Option<Usage>) -> Option<Usage> {
    match source.get("usage"@) {
        Some(u) => Some(usage_of(u)),
        None => usage,
    }
}

/// Takes the usage a source object reports, if it has one.
pub fn update_usage_from_value(source: &Json, usage: &mut Option<Usage>)
    ensures
        *final(usage) == usage_after(source@, *old(usage)),
{
    if let Some(usage_value) = source.get("usage") {
        *usage = Some(parse_usage_value(usage_value));
    }
}

/// What a decoder has gathered from the payloads of a stream.
pub struct StreamStateV {
    pub content: Seq<char>,
    pub builders: Seq<ToolCallBuilderV>,
    pub reasoning: ReasoningBufferV,
    pub usage: Option<Usage>,
    pub finish_reason: FinishReasonV,
}

impl StreamStateV {
    /// The state before the first payload.
    pub open spec fn initial() -> StreamStateV {
        StreamStateV {
            content: Seq::empty(),
            builders: Seq::empty(),
            reasoning: ReasoningBufferV::empty(),
            usage: None,
            finish_reason: FinishReasonV::Stop,
        }
    }

    /// The walk that starts from this state with no fragment.
    pub open spec fn fresh_walk(self) -> WalkV {
        WalkV {
            content: self.content,
            reasoning: self.reasoning,
            builders: self.builders,
            deltas: Seq::empty(),
        }
    }

    /// The walk over `payload` read as a chat-completion chunk.
    pub open spec fn chat_part(self, payload: JsonV) -> WalkV {
        chat_walk(payload, self.fresh_walk())
    }

    /// The walk over `payload` read as a response event, after it was read
    /// as a chat-completion chunk.
    pub open spec fn response_part(self, payload: JsonV) -> WalkV {
        response_walk(payload, WalkV { deltas: Seq::empty(), ..self.chat_part(payload) })
    }

    /// The fragments `payload` produces: those of the chat-completion
    /// reading, then those of the response-event reading.
    #[verifier::opaque]
    pub open spec fn fragments(self, payload: JsonV) -> Seq<StreamFragmentV> {
        self.chat_part(payload).deltas + self.response_part(payload).deltas
    }

    /// The state after `payload`. Both readings are applied; the usage is
    /// that of the payload, or else of its `response`; a `finish_reason` of
    /// the `response` has the last word.
    #[verifier::opaque]
    pub open spec fn after(self, payload: JsonV) -> StreamStateV {
        let w = self.response_part(payload);
        let finish = response_finish(payload, chat_finish(payload, self.finish_reason));
        let usage = usage_after(payload, self.usage);
        StreamStateV {
            content: w.content,
            builders: w.builders,
            reasoning: w.reasoning,
            usage: match payload.get("response"@) {
                Some(response) => usage_after(response, usage),
                None => usage,
            },
            finish_reason: match payload.get("response"@) {
                Some(response) => match response.get_str("finish_reason"@) {
                    Some(r) => finish_reason_of(r),
                    None => finish,
                },
                None => finish,
            },
        }
    }

    /// The response a stream ends with: the answer text unless it is empty,
    /// the finished tool calls, the usage, the finish reason, and the
    /// trimmed reasoning.
    pub open spec fn response(self) -> crate::llm::provider::LLMResponseV {
        crate::llm::provider::LLMResponseV {
            content: if self.content.len() == 0 {
                None
            } else {
                Some(self.content)
            },
            tool_calls: finalized_calls(self.builders),
            usage: self.usage,
            finish_reason: self.finish_reason,
            reasoning: self.reasoning.finalize(),
        }
    }
}

/// The state that five pieces of a decoder stand for.
pub open spec fn state_of(
    content: String,
    builders: Vec<ToolCallBuilder>,
    reasoning: ReasoningBuffer,
    usage: Option<Usage>,
    finish_reason: FinishReason,
) -> StreamStateV {
    StreamStateV {
        content: content@,
        builders: builder_views(builders@),
        reasoning: reasoning@,
        usage,
        finish_reason: finish_reason@,
    }
}

/// Takes one payload of a stream into the decoder state and returns the
/// fragments to emit, if there are any.
pub fn parse_stream_payload(
    payload: &Json,
    aggregated_content: &mut String,
    tool_call_builders: &mut Vec<ToolCallBuilder>,
    reasoning: &mut ReasoningBuffer,
    usage: &mut Option<Usage>,
    finish_reason: &mut FinishReason,
) -> (r: Option<StreamDelta>)
    ensures
        state_of(
            *final(aggregated_content),
            *final(tool_call_builders),
            *final(reasoning),
            *final(usage),
            *final(finish_reason),
        ) == state_of(
            *old(aggregated_content),
            *old(tool_call_builders),
            *old(reasoning),
            *old(usage),
            *old(finish_reason),
        ).after(payload@),
        match r {
            Some(delta) => delta@.len() > 0 && delta@ == state_of(
                *old(aggregated_content),
                *old(tool_call_builders),
                *old(reasoning),
                *old(usage),
                *old(finish_reason),
            ).fragments(payload@),
            None => state_of(
                *old(aggregated_content),
                *old(tool_call_builders),
                *old(reasoning),
                *old(usage),
                *old(finish_reason),
            ).fragments(payload@).len() == 0,
        },
{
    proof {
        reveal(StreamStateV::after);
        reveal(StreamStateV::fragments);
    }
    let mut emitted_delta = StreamDelta::new();
    let chat_delta = parse_chat_completion_chunk(
        payload,
        aggregated_content,
        tool_call_builders,
        reasoning,
        finish_reason,
    );
    emitted_delta.extend(chat_delta);
    let response_delta = parse_response_chunk(
        payload,
        aggregated_content,
        tool_call_builders,
        reasoning,
        finish_reason,
    );
    emitted_delta.extend(response_delta);
    update_usage_from_value(payload, usage);
    if let Some(response_obj) = payload.get("response") {
        update_usage_from_value(response_obj, usage);
        if let Some(reason) = response_obj.get_str("finish_reason") {
            *finish_reason = map_finish_reason(reason);
        }
    }
    if emitted_delta.is_empty() {
        None
    } else {
        Some(emitted_delta)
    }
}

/// The response a stream ends with.
pub fn finalize_stream_response(
    aggregated_content: String,
    tool_call_builders: Vec<ToolCallBuilder>,
    usage: Option<Usage>,
    finish_reason: FinishReason,
    reasoning: ReasoningBuffer,
) -> (r: crate::llm::provider::LLMResponse)
    ensures
        r@ == state_of(
            aggregated_content,
            tool_call_builders,
            reasoning,
            usage,
            finish_reason,
        ).response(),
{
    let content = if aggregated_content.as_str().is_empty() {
        None
    } else {
        Some(aggregated_content)
    };
    let reasoning = reasoning.finalize();
    crate::llm::provider::LLMResponse {
        content,
        tool_calls: finalize_tool_calls(tool_call_builders),
        usage,
        finish_reason,
        reasoning,
    }
}

/// The first event delimiter of `buffer` at or after index `i`: its index
/// and its length.
pub open spec fn boundary_from(buffer: Seq<char>, i: int) -> Option<(int, nat)>
    decreases buffer.len() - i,
{
    if 0 <= i < buffer.len() {
        match boundary_len_at(buffer, i) {
            Some(len) => Some((i, len)),
            None => boundary_from(buffer, i + 1),
        }
    } else {
        None
    }
}

proof fn lemma_boundary_from_found(buffer: Seq<char>, k: int, i: int, len: nat)
    requires
        0 <= k <= i < buffer.len(),
        boundary_len_at(buffer, i) == Some(len),
        forall|j: int| k <= j < i ==> boundary_len_at(buffer, j) is None,
    ensures
        boundary_from(buffer, k) == Some((i, len)),
    decreases i - k,
{
    if k < i {
        lemma_boundary_from_found(buffer, k + 1, i, len);
    }
}

proof fn lemma_boundary_from_none(buffer: Seq<char>, k: int)
    requires
        0 <= k,
        forall|j: int| k <= j ==> boundary_len_at(buffer, j) is None,
    ensures
        boundary_from(buffer, k) is None,
    decreases buffer.len() - k,
{
    if k < buffer.len() {
        lemma_boundary_from_none(buffer, k + 1);
    }
}

/// The events that fragments from index `i` on stand for, added to `acc`:
/// a token for answer text, a reasoning event for reasoning text, none for
/// empty text.
pub open spec fn events_from(
    fragments: Seq<StreamFragmentV>,
    i: int,
    acc: Seq<crate::llm::provider::LLMStreamEventV>,
) -> Seq<crate::llm::provider::LLMStreamEventV>
    decreases fragments.len() - i,
{
    if 0 <= i < fragments.len() {
        let next = match fragments[i] {
            StreamFragmentV::Content(text) => if text.len() > 0 {
                acc.push(crate::llm::provider::LLMStreamEventV::Token { delta: text })
            } else {
                acc
            },
            StreamFragmentV::Reasoning(text) => if text.len() > 0 {
                acc.push(crate::llm::provider::LLMStreamEventV::Reasoning { delta: text })
            } else {
                acc
            },
        };
        events_from(fragments, i + 1, next)
    } else {
        acc
    }
}

/// Whether a decoder still reads, has seen the end marker, or has failed.
#[derive(Clone, Copy, Debug, PartialEq, Eq, Structural)]
pub enum DecoderPhase {
    Open,
    Done,
    Failed,
}

/// Model of a [`StreamDecoder`].
pub struct StreamDecoderV {
    pub buffer: Seq<char>,
    pub state: StreamStateV,
    pub phase: DecoderPhase,
}

/// What a step of the decoder gives: the decoder after it, the events to
/// emit, and the error that ends the stream, if there is one.
pub struct FeedV {
    pub decoder: StreamDecoderV,
    pub events: Seq<crate::llm::provider::LLMStreamEventV>,
    pub error: Option<crate::llm::provider::LLMErrorV>,
}

/// The error for a payload that is no JSON.
pub open spec fn payload_failure(message: Seq<char>) -> crate::llm::provider::LLMErrorV {
    crate::llm::provider::LLMErrorV::Provider(
        crate::llm::error_display::llm_error_text(
            "OpenRouter"@,
            "Failed to parse stream payload: "@ + message,
        ),
    )
}

impl StreamDecoderV {
    /// The decoder before the first chunk.
    pub open spec fn initial() -> StreamDecoderV {
        StreamDecoderV {
            buffer: Seq::empty(),
            state: StreamStateV::initial(),
            phase: DecoderPhase::Open,
        }
    }

    /// What the text of one event does, `events` having been emitted
    /// before it: an event without data, or with blank data, changes
    /// nothing; the payload `[DONE]` ends the stream; any other payload is
    /// parsed and taken into the state, and an unparsable one fails the
    /// stream.
    pub open spec fn take_event(
        self,
        event: Seq<char>,
        events: Seq<crate::llm::provider::LLMStreamEventV>,
    ) -> FeedV {
        match data_payload(event) {
            None => FeedV { decoder: self, events, error: None },
            Some(raw) => {
                let payload = trim_spec(raw);
                if payload == "[DONE]"@ {
                    FeedV {
                        decoder: StreamDecoderV { phase: DecoderPhase::Done, ..self },
                        events,
                        error: None,
                    }
                } else if payload.len() == 0 {
                    FeedV { decoder: self, events, error: None }
                } else {
                    match crate::json::parsed_json(payload) {
                        Err(message) => FeedV {
                            decoder: StreamDecoderV { phase: DecoderPhase::Failed, ..self },
                            events,
                            error: Some(payload_failure(message)),
                        },
                        Ok(value) => FeedV {
                            decoder: StreamDecoderV { state: self.state.after(value), ..self },
                            events: events_from(self.state.fragments(value), 0, events),
                            error: None,
                        },
                    }
                }
            },
        }
    }

    /// What the complete events in the buffer do, one after another, until
    /// the buffer holds no delimiter or the stream has ended.
    pub open spec fn drained(self, events: Seq<crate::llm::provider::LLMStreamEventV>) -> FeedV
        decreases self.buffer.len(),
    {
        if self.phase != DecoderPhase::Open {
            FeedV { decoder: self, events, error: None }
        } else {
            match boundary_from(self.buffer, 0) {
                None => FeedV { decoder: self, events, error: None },
                Some((i, len)) => if 0 <= i && len > 0 && i + len <= self.buffer.len() {
                    let event = self.buffer.subrange(0, i);
                    let rest = self.buffer.subrange(i + len, self.buffer.len() as int);
                    let step = StreamDecoderV { buffer: rest, ..self }.take_event(event, events);
                    if step.error is Some {
                        step
                    } else {
                        step.decoder.drained(step.events)
                    }
                } else {
                    FeedV { decoder: self, events, error: None }
                },
            }
        }
    }

    /// What a chunk of the stream does: it joins the buffer, and the
    /// complete events are taken. A decoder that has seen the end marker or
    /// has failed takes no more.
    pub open spec fn feed(self, chunk: Seq<char>) -> FeedV {
        if self.phase != DecoderPhase::Open {
            FeedV { decoder: self, events: Seq::empty(), error: None }
        } else {
            StreamDecoderV { buffer: self.buffer + chunk, ..self }.drained(Seq::empty())
        }
    }

    /// What the end of the stream does. Without the end marker, a rest in
    /// the buffer that is not blank is taken as one last event. Unless the
    /// stream fails, it ends with the completed response.
    pub open spec fn finish(self) -> FeedV {
        if self.phase == DecoderPhase::Failed {
            FeedV { decoder: self, events: Seq::empty(), error: None }
        } else {
            let last = if self.phase == DecoderPhase::Open && !is_blank(self.buffer) {
                StreamDecoderV { buffer: Seq::empty(), ..self }.take_event(
                    self.buffer,
                    Seq::empty(),
                )
            } else {
                FeedV { decoder: self, events: Seq::empty(), error: None }
            };
            if last.error is Some {
                last
            } else {
                FeedV {
                    decoder: StreamDecoderV { phase: DecoderPhase::Done, ..last.decoder },
                    events: last.events.push(
                        crate::llm::provider::LLMStreamEventV::Completed {
                            response: last.decoder.state.response(),
                        },
                    ),
                    error: None,
                }
            }
        }
    }
}

/// The decoder of a streamed response: the text not yet split into events,
/// and what the payloads so far have delivered.
#[derive(Debug)]
pub struct StreamDecoder {
    pub buffer: Vec<char>,
    pub aggregated_content: String,
    pub tool_call_builders: Vec<ToolCallBuilder>,
    pub reasoning: ReasoningBuffer,
    pub usage: Option<Usage>,
    pub finish_reason: FinishReason,
    pub phase: DecoderPhase,
}

impl View for StreamDecoder {
    type V = StreamDecoderV;

    open spec fn view(&self) -> StreamDecoderV {
        StreamDecoderV {
            buffer: self.buffer@,
            state: state_of(
                self.aggregated_content,
                self.tool_call_builders,
                self.reasoning,
                self.usage,
                self.finish_reason,
            ),
            phase: self.phase,
        }
    }
}

/// The events to emit and the error that ends the stream, if there is one.
#[derive(Debug)]
pub struct StreamStep {
    pub events: Vec<crate::llm::provider::LLMStreamEvent>,
    pub error: Option<crate::llm::provider::LLMError>,
}

/// The model of an optional error.
pub open spec fn opt_error_view(error: Option<crate::llm::provider::LLMError>) -> Option<
    crate::llm::provider::LLMErrorV,
> {
    match error {
        Some(e) => Some(e@),
        None => None,
    }
}

fn push_events(events: &mut Vec<crate::llm::provider::LLMStreamEvent>, delta: StreamDelta)
    ensures
        crate::llm::provider::stream_event_views(final(events)@) == events_from(
            delta@,
            0,
            crate::llm::provider::stream_event_views(old(events)@),
        ),
{
    let fragments = delta.into_fragments();
    let ghost views = fragment_views(fragments@);
    let ghost start = crate::llm::provider::stream_event_views(events@);
    let mut i: usize = 0;
    while i < fragments.len()
        invariant
            i <= fragments.len(),
            views == fragment_views(fragments@),
            events_from(views, i as int, crate::llm::provider::stream_event_views(events@))
                == events_from(views, 0, start),
        decreases fragments.len() - i,
    {
        let ghost before = crate::llm::provider::stream_event_views(events@);
        match &fragments[i] {
            StreamFragment::Content(text) => {
                if !text.as_str().is_empty() {
                    let event = crate::llm::provider::LLMStreamEvent::Token { delta: text.clone() };
                    events.push(event);
                    assert(crate::llm::provider::stream_event_views(events@) =~= before.push(
                        crate::llm::provider::LLMStreamEventV::Token { delta: text@ },
                    ));
                }
            },
            StreamFragment::Reasoning(text) => {
                if !text.as_str().is_empty() {
                    let event = crate::llm::provider::LLMStreamEvent::Reasoning {
                        delta: text.clone(),
                    };
                    events.push(event);
                    assert(crate::llm::provider::stream_event_views(events@) =~= before.push(
                        crate::llm::provider::LLMStreamEventV::Reasoning { delta: text@ },
                    ));
                }
            },
        }
        i += 1;
    }
}

impl StreamDecoder {
    /// The decoder before the first chunk.
    pub fn new() -> (r: StreamDecoder)
        ensures
            r@ == StreamDecoderV::initial(),
    {
        let r = StreamDecoder {
            buffer: Vec::new(),
            aggregated_content: String::new(),
            tool_call_builders: Vec::new(),
            reasoning: ReasoningBuffer::new(),
            usage: None,
            finish_reason: FinishReason::Stop,
            phase: DecoderPhase::Open,
        };
        assert(builder_views(r.tool_call_builders@) =~= Seq::empty());
        r
    }

    /// Whether the end marker has been seen.
    pub fn is_done(&self) -> (r: bool)
        ensures
            r == (self@.phase == DecoderPhase::Done),
    {
        self.phase == DecoderPhase::Done
    }

    fn take_event(
        &mut self,
        event: &[char],
        events: &mut Vec<crate::llm::provider::LLMStreamEvent>,
    ) -> (error: Option<crate::llm::provider::LLMError>)
        ensures
            final(self)@ == old(self)@.take_event(
                event@,
                crate::llm::provider::stream_event_views(old(events)@),
            ).decoder,
            crate::llm::provider::stream_event_views(final(events)@) == old(self)@.take_event(
                event@,
                crate::llm::provider::stream_event_views(old(events)@),
            ).events,
            opt_error_view(error) == old(self)@.take_event(
                event@,
                crate::llm::provider::stream_event_views(old(events)@),
            ).error,
    {
        let raw = match extract_data_payload_chars(event) {
            Some(raw) => raw,
            None => {
                return None;
            },
        };
        let trimmed = trim_chars(raw.as_slice());
        let done_marker = chars_of("[DONE]");
        if crate::text::chars_eq(trimmed.as_slice(), done_marker.as_slice()) {
            self.phase = DecoderPhase::Done;
            return None;
        }
        if trimmed.len() == 0 {
            return None;
        }
        let text = string_of(trimmed.as_slice());
        match Json::parse(text.as_str()) {
            Err(message) => {
                self.phase = DecoderPhase::Failed;
                let detail = crate::text::concat("Failed to parse stream payload: ", message.as_str());
                Some(
                    crate::llm::provider::LLMError::Provider(
                        crate::llm::error_display::format_llm_error("OpenRouter", detail.as_str()),
                    ),
                )
            },
            Ok(payload) => {
                let delta = parse_stream_payload(
                    &payload,
                    &mut self.aggregated_content,
                    &mut self.tool_call_builders,
                    &mut self.reasoning,
                    &mut self.usage,
                    &mut self.finish_reason,
                );
                match delta {
                    Some(delta) => {
                        push_events(events, delta);
                    },
                    None => {},
                }
                None
            },
        }
    }

    /// Takes one chunk of the stream: it joins the buffer, and every
    /// complete event in the buffer is taken.
    pub fn feed(&mut self, chunk: &str) -> (r: StreamStep)
        ensures
            final(self)@ == old(self)@.feed(chunk@).decoder,
            crate::llm::provider::stream_event_views(r.events@) == old(self)@.feed(chunk@).events,
            opt_error_view(r.error) == old(self)@.feed(chunk@).error,
    {
        let mut events: Vec<crate::llm::provider::LLMStreamEvent> = Vec::new();
        assert(crate::llm::provider::stream_event_views(events@) =~= Seq::empty());
        if self.phase != DecoderPhase::Open {
            return StreamStep { events, error: None };
        }
        let added = chars_of(chunk);
        crate::text::extend_chars(&mut self.buffer, added.as_slice());
        let ghost goal = self@.drained(Seq::empty());
        assert(goal == old(self)@.feed(chunk@));
        loop
            invariant
                goal == old(self)@.feed(chunk@),
                self@.drained(crate::llm::provider::stream_event_views(events@)) == goal,
            ensures
                self@ == goal.decoder,
                crate::llm::provider::stream_event_views(events@) == goal.events,
                goal.error is None,
            decreases self.buffer.len(),
        {
            if self.phase != DecoderPhase::Open {
                break ;
            }
            let (index, len) = match find_sse_boundary(self.buffer.as_slice()) {
                Some(found) => found,
                None => {
                    proof {
                        lemma_boundary_from_none(self.buffer@, 0);
                    }
                    break ;
                },
            };
            proof {
                reveal_strlit("\n\n");
                reveal_strlit("\r\n\r\n");
                lemma_boundary_from_found(self.buffer@, 0, index as int, len as nat);
            }
            let event = slice_chars(self.buffer.as_slice(), 0, index);
            let rest = slice_chars(self.buffer.as_slice(), index + len, self.buffer.len());
            self.buffer = rest;
            let error = self.take_event(event.as_slice(), &mut events);
            if error.is_some() {
                return StreamStep { events, error };
            }
        }
        StreamStep { events, error: None }
    }

    /// Ends the stream: a rest in the buffer is taken as one last event,
    /// and the completed response follows unless the stream fails.
    pub fn finish(self) -> (r: StreamStep)
        ensures
            crate::llm::provider::stream_event_views(r.events@) == self@.finish().events,
            opt_error_view(r.error) == self@.finish().error,
    {
        let mut decoder = self;
        let mut events: Vec<crate::llm::provider::LLMStreamEvent> = Vec::new();
        assert(crate::llm::provider::stream_event_views(events@) =~= Seq::empty());
        if decoder.phase == DecoderPhase::Failed {
            return StreamStep { events, error: None };
        }
        if decoder.phase == DecoderPhase::Open && !is_blank_chars(decoder.buffer.as_slice()) {
            let mut rest: Vec<char> = Vec::new();
            std::mem::swap(&mut rest, &mut decoder.buffer);
            let error = decoder.take_event(rest.as_slice(), &mut events);
            if error.is_some() {
                return StreamStep { events, error };
            }
        }
        let ghost before = crate::llm::provider::stream_event_views(events@);
        let response = finalize_stream_response(
            decoder.aggregated_content,
            decoder.tool_call_builders,
            decoder.usage,
            decoder.finish_reason,
            decoder.reasoning,
        );
        events.push(crate::llm::provider::LLMStreamEvent::Completed { response });
        assert(crate::llm::provider::stream_event_views(events@) =~= before.push(
            crate::llm::provider::LLMStreamEventV::Completed { response: response@ },
        ));
        StreamStep { events, error: None }
    }
}

/// Whether one of the builders from index `i` on finishes as `call`.
pub open spec fn finished_by(builders: Seq<ToolCallBuilderV>, i: int, call: ToolCallV) -> bool {
    exists|j: int| i <= j < builders.len() && #[trigger] builders[j].finalize(j as nat) == Some(call)
}

/// Every finished call comes from a builder that has a name, in the order
/// of the builders; a builder without a name or with an empty one, such as
/// one that only fills a gap between indices, finishes nothing.
pub proof fn lemma_finalized_calls_come_from_builders(builders: Seq<ToolCallBuilderV>, i: int)
    requires
        0 <= i <= builders.len(),
    ensures
        finalized_from(builders, i).len() <= builders.len() - i,
        forall|k: int|
            0 <= k < finalized_from(builders, i).len() ==> finished_by(
                builders,
                i,
                #[trigger] finalized_from(builders, i)[k],
            ),
    decreases builders.len() - i,
{
    if i < builders.len() {
        lemma_finalized_calls_come_from_builders(builders, i + 1);
        let rest = finalized_from(builders, i + 1);
        assert forall|k: int| 0 <= k < finalized_from(builders, i).len() implies finished_by(
            builders,
            i,
            #[trigger] finalized_from(builders, i)[k],
        ) by {
            let call = finalized_from(builders, i)[k];
            match builders[i].finalize(i as nat) {
                Some(first) => {
                    if k == 0 {
                        assert(call == first);
                        assert(builders[i].finalize(i as nat) == Some(call));
                    } else {
                        assert(call == rest[k - 1]);
                        assert(finished_by(builders, i + 1, rest[k - 1]));
                        let j = choose|j: int|
                            i + 1 <= j < builders.len() && #[trigger] builders[j].finalize(j as nat)
                                == Some(call);
                        assert(builders[j].finalize(j as nat) == Some(call));
                    }
                },
                None => {
                    assert(call == rest[k]);
                    assert(finished_by(builders, i + 1, rest[k]));
                    let j = choose|j: int|
                        i + 1 <= j < builders.len() && #[trigger] builders[j].finalize(j as nat)
                            == Some(call);
                    assert(builders[j].finalize(j as nat) == Some(call));
                },
            }
        }
    }
}

/// A finished call is whole: its name is never empty, and neither are its
/// arguments, which are the builder's own, or `{}` where the builder has
/// none.
pub proof fn lemma_finished_call_is_whole(builders: Seq<ToolCallBuilderV>, k: int)
    requires
        0 <= k < finalized_from(builders, 0).len(),
    ensures
        finalized_from(builders, 0)[k].name.len() > 0,
        finalized_from(builders, 0)[k].arguments.len() > 0,
{
    lemma_finalized_calls_come_from_builders(builders, 0);
    let call = finalized_from(builders, 0)[k];
    assert(finished_by(builders, 0, call));
    let j = choose|j: int|
        0 <= j < builders.len() && #[trigger] builders[j].finalize(j as nat) == Some(call);
    reveal_strlit("{}");
    assert("{}"@.len() == 2);
    assert(builders[j].name is Some);
}

/// A delta placed beyond the end of the builders leaves empty builders in
/// the gap, and an empty builder finishes no call.
pub proof fn lemma_gaps_are_empty_builders(
    builders: Seq<ToolCallBuilderV>,
    slot: int,
    source: JsonV,
)
    requires
        builders.len() <= slot,
    ensures
        applied_at(builders, slot, source).len() == slot + 1,
        forall|k: int|
            0 <= k < builders.len() ==> #[trigger] applied_at(builders, slot, source)[k]
                == builders[k],
        forall|k: int|
            builders.len() <= k < slot ==> #[trigger] applied_at(builders, slot, source)[k]
                == ToolCallBuilderV::empty(),
        forall|k: nat| ToolCallBuilderV::empty().finalize(k) is None,
{
}

/// The end marker ends the stream: once the first complete event in the
/// buffer carries `[DONE]`, nothing is emitted for it, nothing after it is
/// parsed, whatever it holds, and the end of the stream then gives exactly
/// the completed response of what came before.
pub proof fn lemma_done_ends_the_stream(
    decoder: StreamDecoderV,
    events: Seq<crate::llm::provider::LLMStreamEventV>,
    later: Seq<char>,
)
    requires
        decoder.phase == DecoderPhase::Open,
        boundary_from(decoder.buffer, 0) is Some,
        ({
            let (i, len) = boundary_from(decoder.buffer, 0)->0;
            &&& 0 <= i
            &&& len > 0
            &&& i + len <= decoder.buffer.len()
            &&& data_payload(decoder.buffer.subrange(0, i)) is Some
            &&& trim_spec(data_payload(decoder.buffer.subrange(0, i))->0) == "[DONE]"@
        }),
    ensures
        ({
            let (i, len) = boundary_from(decoder.buffer, 0)->0;
            let rest = decoder.buffer.subrange(i + len, decoder.buffer.len() as int);
            let done = StreamDecoderV { buffer: rest, phase: DecoderPhase::Done, ..decoder };
            &&& decoder.drained(events) == (FeedV { decoder: done, events, error: None })
            &&& done.feed(later) == (FeedV { decoder: done, events: Seq::empty(), error: None })
            &&& done.finish().error is None
            &&& done.finish().events == seq![
                crate::llm::provider::LLMStreamEventV::Completed {
                    response: decoder.state.response(),
                },
            ]
        }),
{
    reveal_with_fuel(StreamDecoderV::drained, 2);
    let (i, len) = boundary_from(decoder.buffer, 0)->0;
    let rest = decoder.buffer.subrange(i + len, decoder.buffer.len() as int);
    let done = StreamDecoderV { buffer: rest, phase: DecoderPhase::Done, ..decoder };
    assert(done.finish().events =~= seq![
        crate::llm::provider::LLMStreamEventV::Completed { response: decoder.state.response() },
    ]);
}

} // verus!
