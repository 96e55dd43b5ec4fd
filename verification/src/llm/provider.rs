//! The provider-neutral conversation model.

use crate::json::{Json, JsonV};
use vstd::prelude::*;

verus! {

/// Who wrote a message.
#[derive(Clone, Copy, Debug, PartialEq, Eq, Structural)]
pub enum MessageRole {
    System,
    User,
    Assistant,
    Tool,
}

impl MessageRole {
    /// The role's name on the chat-completion wire.
    pub open spec fn wire_name(self) -> Seq<char> {
        match self {
            MessageRole::System => "system"@,
            MessageRole::User => "user"@,
            MessageRole::Assistant => "assistant"@,
            MessageRole::Tool => "tool"@,
        }
    }

    /// The role's name on the chat-completion wire.
    pub fn as_openai_str(&self) -> (r: &'static str)
        ensures
            r@ == self.wire_name(),
    {
        match self {
            MessageRole::System => "system",
            MessageRole::User => "user",
            MessageRole::Assistant => "assistant",
            MessageRole::Tool => "tool",
        }
    }
}

/// Model of a [`ToolCall`].
pub struct ToolCallV {
    pub id: Seq<char>,
    pub name: Seq<char>,
    pub arguments: Seq<char>,
}

/// The function a tool call names, with its JSON-encoded arguments.
#[derive(Debug)]
pub struct FunctionCall {
    pub name: String,
    pub arguments: String,
}

/// A tool call issued by the assistant.
#[derive(Debug)]
pub struct ToolCall {
    pub id: String,
    pub function: FunctionCall,
}

impl View for ToolCall {
    type V = ToolCallV;

    open spec fn view(&self) -> ToolCallV {
        ToolCallV { id: self.id@, name: self.function.name@, arguments: self.function.arguments@ }
    }
}

impl ToolCall {
    /// A call of the function `name` with the given encoded arguments.
    pub fn function(id: String, name: String, arguments: String) -> (r: ToolCall)
        ensures
            r@ == (ToolCallV { id: id@, name: name@, arguments: arguments@ }),
    {
        ToolCall { id, function: FunctionCall { name, arguments } }
    }

    /// A copy of this call.
    pub fn duplicate(&self) -> (r: ToolCall)
        ensures
            r@ == self@,
    {
        ToolCall {
            id: self.id.clone(),
            function: FunctionCall {
                name: self.function.name.clone(),
                arguments: self.function.arguments.clone(),
            },
        }
    }
}

/// The models of a sequence of tool calls.
pub open spec fn tool_call_views(calls: Seq<ToolCall>) -> Seq<ToolCallV> {
    Seq::new(calls.len(), |i: int| calls[i]@)
}

/// The model of an optional list of tool calls.
pub open spec fn opt_tool_call_views(calls: Option<Vec<ToolCall>>) -> Option<Seq<ToolCallV>> {
    match calls {
        Some(v) => Some(tool_call_views(v@)),
        None => None,
    }
}

/// The model of an optional tool call.
pub open spec fn opt_tool_call_view(call: Option<ToolCall>) -> Option<ToolCallV> {
    match call {
        Some(c) => Some(c@),
        None => None,
    }
}

/// The model of an optional text.
pub open spec fn opt_text(text: Option<String>) -> Option<Seq<char>> {
    match text {
        Some(s) => Some(s@),
        None => None,
    }
}

/// Copies a list of tool calls.
pub fn duplicate_tool_calls(calls: &Vec<ToolCall>) -> (r: Vec<ToolCall>)
    ensures
        tool_call_views(r@) == tool_call_views(calls@),
{
    let mut out: Vec<ToolCall> = Vec::new();
    let mut i: usize = 0;
    while i < calls.len()
        invariant
            i <= calls.len(),
            out@.len() == i,
            forall|k: int| 0 <= k < i ==> out@[k]@ == calls@[k]@,
        decreases calls.len() - i,
    {
        out.push(calls[i].duplicate());
        i += 1;
    }
    assert(tool_call_views(out@) =~= tool_call_views(calls@));
    out
}

/// Copies an optional text.
pub fn duplicate_opt_text(text: &Option<String>) -> (r: Option<String>)
    ensures
        opt_text(r) == opt_text(*text),
{
    match text {
        Some(s) => Some(s.clone()),
        None => None,
    }
}

/// Model of a [`Message`].
pub struct MessageV {
    pub role: MessageRole,
    pub content: Seq<char>,
    pub tool_calls: Option<Seq<ToolCallV>>,
    pub tool_call_id: Option<Seq<char>>,
}

/// One entry of a conversation.
#[derive(Debug)]
pub struct Message {
    pub role: MessageRole,
    pub content: String,
    pub tool_calls: Option<Vec<ToolCall>>,
    pub tool_call_id: Option<String>,
}

impl View for Message {
    type V = MessageV;

    open spec fn view(&self) -> MessageV {
        MessageV {
            role: self.role,
            content: self.content@,
            tool_calls: opt_tool_call_views(self.tool_calls),
            tool_call_id: opt_text(self.tool_call_id),
        }
    }
}

impl MessageV {
    /// A message of the given role that carries only text.
    pub open spec fn plain(role: MessageRole, content: Seq<char>) -> MessageV {
        MessageV { role, content, tool_calls: None, tool_call_id: None }
    }

    /// Why the chat-completion wire refuses this message, if it does: a
    /// tool message has to name the call it answers.
    pub open spec fn openai_defect(self) -> Option<Seq<char>> {
        if self.role == MessageRole::Tool && self.tool_call_id is None {
            Some("Tool messages must include tool_call_id"@)
        } else {
            None
        }
    }
}

impl Message {
    pub fn system(content: String) -> (r: Message)
        ensures
            r@ == MessageV::plain(MessageRole::System, content@),
    {
        Message { role: MessageRole::System, content, tool_calls: None, tool_call_id: None }
    }

    pub fn user(content: String) -> (r: Message)
        ensures
            r@ == MessageV::plain(MessageRole::User, content@),
    {
        Message { role: MessageRole::User, content, tool_calls: None, tool_call_id: None }
    }

    pub fn assistant(content: String) -> (r: Message)
        ensures
            r@ == MessageV::plain(MessageRole::Assistant, content@),
    {
        Message { role: MessageRole::Assistant, content, tool_calls: None, tool_call_id: None }
    }

    /// An assistant message that carries tool calls.
    pub fn assistant_with_tools(content: String, tool_calls: Vec<ToolCall>) -> (r: Message)
        ensures
            r@ == (MessageV {
                role: MessageRole::Assistant,
                content: content@,
                tool_calls: Some(tool_call_views(tool_calls@)),
                tool_call_id: None,
            }),
    {
        Message {
            role: MessageRole::Assistant,
            content,
            tool_calls: Some(tool_calls),
            tool_call_id: None,
        }
    }

    /// The answer to the tool call `tool_call_id`.
    pub fn tool_response(tool_call_id: String, content: String) -> (r: Message)
        ensures
            r@ == (MessageV {
                role: MessageRole::Tool,
                content: content@,
                tool_calls: None,
                tool_call_id: Some(tool_call_id@),
            }),
    {
        Message {
            role: MessageRole::Tool,
            content,
            tool_calls: None,
            tool_call_id: Some(tool_call_id),
        }
    }

    /// A copy of this message.
    pub fn duplicate(&self) -> (r: Message)
        ensures
            r@ == self@,
    {
        let tool_calls = match &self.tool_calls {
            Some(calls) => Some(duplicate_tool_calls(calls)),
            None => None,
        };
        Message {
            role: self.role,
            content: self.content.clone(),
            tool_calls,
            tool_call_id: duplicate_opt_text(&self.tool_call_id),
        }
    }

    /// Checks the message against the chat-completion wire: a tool message
    /// has to name the call it answers.
    pub fn validate_for_openai(&self) -> (r: Result<(), String>)
        ensures
            match r {
                Ok(_) => self@.openai_defect() is None,
                Err(e) => self@.openai_defect() == Some(e@),
            },
    {
        if self.role == MessageRole::Tool && self.tool_call_id.is_none() {
            Err("Tool messages must include tool_call_id".to_owned())
        } else {
            Ok(())
        }
    }
}

/// The models of a sequence of messages.
pub open spec fn message_views(messages: Seq<Message>) -> Seq<MessageV> {
    Seq::new(messages.len(), |i: int| messages[i]@)
}

/// Copies a conversation.
pub fn duplicate_messages(messages: &Vec<Message>) -> (r: Vec<Message>)
    ensures
        message_views(r@) == message_views(messages@),
{
    let mut out: Vec<Message> = Vec::new();
    let mut i: usize = 0;
    while i < messages.len()
        invariant
            i <= messages.len(),
            out@.len() == i,
            forall|k: int| 0 <= k < i ==> out@[k]@ == messages@[k]@,
        decreases messages.len() - i,
    {
        out.push(messages[i].duplicate());
        i += 1;
    }
    assert(message_views(out@) =~= message_views(messages@));
    out
}

/// Model of a [`ToolDefinition`].
pub struct ToolDefinitionV {
    pub name: Seq<char>,
    pub description: Seq<char>,
    pub parameters: JsonV,
}

/// A function the model may call: its name, what it does, and the JSON
/// schema of its parameters.
#[derive(Debug)]
pub struct ToolDefinition {
    pub name: String,
    pub description: String,
    pub parameters: Json,
}

impl View for ToolDefinition {
    type V = ToolDefinitionV;

    open spec fn view(&self) -> ToolDefinitionV {
        ToolDefinitionV {
            name: self.name@,
            description: self.description@,
            parameters: self.parameters@,
        }
    }
}

impl ToolDefinition {
    pub fn function(name: String, description: String, parameters: Json) -> (r: ToolDefinition)
        ensures
            r@ == (ToolDefinitionV {
                name: name@,
                description: description@,
                parameters: parameters@,
            }),
    {
        ToolDefinition { name, description, parameters }
    }

    pub fn function_name(&self) -> (r: &str)
        ensures
            r@ == self@.name,
    {
        self.name.as_str()
    }

    /// A copy of this definition.
    pub fn duplicate(&self) -> (r: ToolDefinition)
        ensures
            r@ == self@,
    {
        ToolDefinition {
            name: self.name.clone(),
            description: self.description.clone(),
            parameters: self.parameters.duplicate(),
        }
    }
}

/// The models of a sequence of tool definitions.
pub open spec fn tool_definition_views(tools: Seq<ToolDefinition>) -> Seq<ToolDefinitionV> {
    Seq::new(tools.len(), |i: int| tools[i]@)
}

/// The model of an optional list of tool definitions.
pub open spec fn opt_tool_definition_views(tools: Option<Vec<ToolDefinition>>) -> Option<
    Seq<ToolDefinitionV>,
> {
    match tools {
        Some(v) => Some(tool_definition_views(v@)),
        None => None,
    }
}

/// Copies a list of tool definitions.
pub fn duplicate_tool_definitions(tools: &Vec<ToolDefinition>) -> (r: Vec<ToolDefinition>)
    ensures
        tool_definition_views(r@) == tool_definition_views(tools@),
{
    let mut out: Vec<ToolDefinition> = Vec::new();
    let mut i: usize = 0;
    while i < tools.len()
        invariant
            i <= tools.len(),
            out@.len() == i,
            forall|k: int| 0 <= k < i ==> out@[k]@ == tools@[k]@,
        decreases tools.len() - i,
    {
        out.push(tools[i].duplicate());
        i += 1;
    }
    assert(tool_definition_views(out@) =~= tool_definition_views(tools@));
    out
}

/// Model of a [`ToolChoice`].
pub enum ToolChoiceV {
    Auto,
    Off,
    Any,
    Specific(Seq<char>),
}

/// How the model may use tools: as it sees fit, not at all, at least one, or
/// the one function named.
#[derive(Debug)]
pub enum ToolChoice {
    Auto,
    Off,
    Any,
    Specific(String),
}

impl View for ToolChoice {
    type V = ToolChoiceV;

    open spec fn view(&self) -> ToolChoiceV {
        match self {
            ToolChoice::Auto => ToolChoiceV::Auto,
            ToolChoice::Off => ToolChoiceV::Off,
            ToolChoice::Any => ToolChoiceV::Any,
            ToolChoice::Specific(name) => ToolChoiceV::Specific(name@),
        }
    }
}

/// The model of an optional tool choice.
pub open spec fn opt_tool_choice_view(choice: Option<ToolChoice>) -> Option<ToolChoiceV> {
    match choice {
        Some(c) => Some(c@),
        None => None,
    }
}

impl ToolChoiceV {
    /// The choice on the chat-completion wire: `"auto"`, `"none"`,
    /// `"required"`, or an object that names the one function.
    pub open spec fn openai_format(self) -> JsonV {
        match self {
            ToolChoiceV::Auto => JsonV::Str("auto"@),
            ToolChoiceV::Off => JsonV::Str("none"@),
            ToolChoiceV::Any => JsonV::Str("required"@),
            ToolChoiceV::Specific(name) => JsonV::Object(
                seq!["type"@, "function"@],
                seq![JsonV::Str("function"@), JsonV::Object(seq!["name"@], seq![JsonV::Str(name)])],
            ),
        }
    }
}

impl ToolChoice {
    pub fn auto() -> (r: ToolChoice)
        ensures
            r@ == ToolChoiceV::Auto,
    {
        ToolChoice::Auto
    }

    pub fn none() -> (r: ToolChoice)
        ensures
            r@ == ToolChoiceV::Off,
    {
        ToolChoice::Off
    }

    pub fn any() -> (r: ToolChoice)
        ensures
            r@ == ToolChoiceV::Any,
    {
        ToolChoice::Any
    }

    pub fn function(name: String) -> (r: ToolChoice)
        ensures
            r@ == ToolChoiceV::Specific(name@),
    {
        ToolChoice::Specific(name)
    }

    /// A copy of this choice.
    pub fn duplicate(&self) -> (r: ToolChoice)
        ensures
            r@ == self@,
    {
        match self {
            ToolChoice::Auto => ToolChoice::Auto,
            ToolChoice::Off => ToolChoice::Off,
            ToolChoice::Any => ToolChoice::Any,
            ToolChoice::Specific(name) => ToolChoice::Specific(name.clone()),
        }
    }

    /// The choice on the chat-completion wire.
    pub fn to_openai_format(&self) -> (r: Json)
        ensures
            r@ == self@.openai_format(),
    {
        match self {
            ToolChoice::Auto => Json::string("auto"),
            ToolChoice::Off => Json::string("none"),
            ToolChoice::Any => Json::string("required"),
            ToolChoice::Specific(name) => {
                let mut inner: Vec<(String, Json)> = Vec::new();
                inner.push(("name".to_owned(), Json::string(name.as_str())));
                let function = Json::Object(inner);
                assert(function@->Object_0 =~= seq!["name"@]);
                assert(function@->Object_1 =~= seq![JsonV::Str(name@)]);
                let mut outer: Vec<(String, Json)> = Vec::new();
                outer.push(("type".to_owned(), Json::string("function")));
                outer.push(("function".to_owned(), function));
                let r = Json::Object(outer);
                assert(r@->Object_0 =~= seq!["type"@, "function"@]);
                assert(r@->Object_1 =~= seq![JsonV::Str("function"@), function@]);
                r
            },
        }
    }
}

/// Token counts reported by a provider.
#[derive(Clone, Copy, Debug, PartialEq, Eq, Structural)]
pub struct Usage {
    pub prompt_tokens: u32,
    pub completion_tokens: u32,
    pub total_tokens: u32,
    pub cached_prompt_tokens: Option<u32>,
    pub cache_creation_tokens: Option<u32>,
    pub cache_read_tokens: Option<u32>,
}

/// Model of a [`FinishReason`].
pub enum FinishReasonV {
    Stop,
    Length,
    ToolCalls,
    ContentFilter,
    Error(Seq<char>),
}

/// Why a response ended.
#[derive(Debug)]
pub enum FinishReason {
    Stop,
    Length,
    ToolCalls,
    ContentFilter,
    Error(String),
}

impl View for FinishReason {
    type V = FinishReasonV;

    open spec fn view(&self) -> FinishReasonV {
        match self {
            FinishReason::Stop => FinishReasonV::Stop,
            FinishReason::Length => FinishReasonV::Length,
            FinishReason::ToolCalls => FinishReasonV::ToolCalls,
            FinishReason::ContentFilter => FinishReasonV::ContentFilter,
            FinishReason::Error(s) => FinishReasonV::Error(s@),
        }
    }
}

impl FinishReason {
    /// A copy of this reason.
    pub fn duplicate(&self) -> (r: FinishReason)
        ensures
            r@ == self@,
    {
        match self {
            FinishReason::Stop => FinishReason::Stop,
            FinishReason::Length => FinishReason::Length,
            FinishReason::ToolCalls => FinishReason::ToolCalls,
            FinishReason::ContentFilter => FinishReason::ContentFilter,
            FinishReason::Error(s) => FinishReason::Error(s.clone()),
        }
    }
}

/// Model of an [`LLMResponse`].
pub struct LLMResponseV {
    pub content: Option<Seq<char>>,
    pub tool_calls: Option<Seq<ToolCallV>>,
    pub usage: Option<Usage>,
    pub finish_reason: FinishReasonV,
    pub reasoning: Option<Seq<char>>,
}

/// A provider's answer to one request.
#[derive(Debug)]
pub struct LLMResponse {
    pub content: Option<String>,
    pub tool_calls: Option<Vec<ToolCall>>,
    pub usage: Option<Usage>,
    pub finish_reason: FinishReason,
    pub reasoning: Option<String>,
}

impl View for LLMResponse {
    type V = LLMResponseV;

    open spec fn view(&self) -> LLMResponseV {
        LLMResponseV {
            content: opt_text(self.content),
            tool_calls: opt_tool_call_views(self.tool_calls),
            usage: self.usage,
            finish_reason: self.finish_reason@,
            reasoning: opt_text(self.reasoning),
        }
    }
}

/// Model of an [`LLMStreamEvent`].
pub enum LLMStreamEventV {
    Token { delta: Seq<char> },
    Reasoning { delta: Seq<char> },
    Completed { response: LLMResponseV },
}

/// One event of a streamed response.
#[derive(Debug)]
pub enum LLMStreamEvent {
    Token { delta: String },
    Reasoning { delta: String },
    Completed { response: LLMResponse },
}

impl View for LLMStreamEvent {
    type V = LLMStreamEventV;

    open spec fn view(&self) -> LLMStreamEventV {
        match self {
            LLMStreamEvent::Token { delta } => LLMStreamEventV::Token { delta: delta@ },
            LLMStreamEvent::Reasoning { delta } => LLMStreamEventV::Reasoning { delta: delta@ },
            LLMStreamEvent::Completed { response } => LLMStreamEventV::Completed {
                response: response@,
            },
        }
    }
}

/// The models of a sequence of stream events.
pub open spec fn stream_event_views(events: Seq<LLMStreamEvent>) -> Seq<LLMStreamEventV> {
    Seq::new(events.len(), |i: int| events[i]@)
}

/// Model of an [`LLMError`].
pub enum LLMErrorV {
    InvalidRequest(Seq<char>),
    Provider(Seq<char>),
    Network(Seq<char>),
    RateLimit,
}

/// What can go wrong between a request and its response.
#[derive(Debug)]
pub enum LLMError {
    /// The caller's request is unusable: no messages, no model, bad tool
    /// arguments.
    InvalidRequest(String),
    /// The provider answered with something malformed or refused.
    Provider(String),
    /// The transport failed.
    Network(String),
    /// The provider asks the caller to back off.
    RateLimit,
}

impl View for LLMError {
    type V = LLMErrorV;

    open spec fn view(&self) -> LLMErrorV {
        match self {
            LLMError::InvalidRequest(s) => LLMErrorV::InvalidRequest(s@),
            LLMError::Provider(s) => LLMErrorV::Provider(s@),
            LLMError::Network(s) => LLMErrorV::Network(s@),
            LLMError::RateLimit => LLMErrorV::RateLimit,
        }
    }
}

impl LLMError {
    /// The error in words.
    pub fn message(&self) -> (r: String)
        ensures
            r@ == match self@ {
                LLMErrorV::InvalidRequest(s) => "Invalid request: "@ + s,
                LLMErrorV::Provider(s) => "Provider error: "@ + s,
                LLMErrorV::Network(s) => "Network error: "@ + s,
                LLMErrorV::RateLimit => "Rate limit exceeded"@,
            },
    {
        match self {
            LLMError::InvalidRequest(s) => crate::text::concat("Invalid request: ", s.as_str()),
            LLMError::Provider(s) => crate::text::concat("Provider error: ", s.as_str()),
            LLMError::Network(s) => crate::text::concat("Network error: ", s.as_str()),
            LLMError::RateLimit => "Rate limit exceeded".to_owned(),
        }
    }
}

/// Model of an [`LLMRequest`].
pub struct LLMRequestV {
    pub messages: Seq<MessageV>,
    pub system_prompt: Option<Seq<char>>,
    pub tools: Option<Seq<ToolDefinitionV>>,
    pub model: Seq<char>,
    pub max_tokens: Option<u32>,
    pub temperature: Option<JsonV>,
    pub stream: bool,
    pub tool_choice: Option<ToolChoiceV>,
    pub parallel_tool_calls: Option<bool>,
    pub reasoning_effort: Option<Seq<char>>,
}

/// The model of an optional reference to a JSON value.
pub open spec fn opt_json_ref_view(value: Option<&Json>) -> Option<JsonV> {
    match value {
        Some(v) => Some(v@),
        None => None,
    }
}

/// The model of an optional JSON value.
pub open spec fn opt_json_view(value: Option<Json>) -> Option<JsonV> {
    match value {
        Some(v) => Some(v@),
        None => None,
    }
}

/// One request to a provider. `temperature` holds the JSON number to send.
#[derive(Debug)]
pub struct LLMRequest {
    pub messages: Vec<Message>,
    pub system_prompt: Option<String>,
    pub tools: Option<Vec<ToolDefinition>>,
    pub model: String,
    pub max_tokens: Option<u32>,
    pub temperature: Option<Json>,
    pub stream: bool,
    pub tool_choice: Option<ToolChoice>,
    pub parallel_tool_calls: Option<bool>,
    pub reasoning_effort: Option<String>,
}

impl View for LLMRequest {
    type V = LLMRequestV;

    open spec fn view(&self) -> LLMRequestV {
        LLMRequestV {
            messages: message_views(self.messages@),
            system_prompt: opt_text(self.system_prompt),
            tools: opt_tool_definition_views(self.tools),
            model: self.model@,
            max_tokens: self.max_tokens,
            temperature: opt_json_view(self.temperature),
            stream: self.stream,
            tool_choice: opt_tool_choice_view(self.tool_choice),
            parallel_tool_calls: self.parallel_tool_calls,
            reasoning_effort: opt_text(self.reasoning_effort),
        }
    }
}

impl LLMRequest {
    /// A copy of this request.
    pub fn duplicate(&self) -> (r: LLMRequest)
        ensures
            r@ == self@,
    {
        let tools = match &self.tools {
            Some(t) => Some(duplicate_tool_definitions(t)),
            None => None,
        };
        let temperature = match &self.temperature {
            Some(t) => Some(t.duplicate()),
            None => None,
        };
        let tool_choice = match &self.tool_choice {
            Some(c) => Some(c.duplicate()),
            None => None,
        };
        LLMRequest {
            messages: duplicate_messages(&self.messages),
            system_prompt: duplicate_opt_text(&self.system_prompt),
            tools,
            model: self.model.clone(),
            max_tokens: self.max_tokens,
            temperature,
            stream: self.stream,
            tool_choice,
            parallel_tool_calls: self.parallel_tool_calls,
            reasoning_effort: duplicate_opt_text(&self.reasoning_effort),
        }
    }
}

} // verus!
