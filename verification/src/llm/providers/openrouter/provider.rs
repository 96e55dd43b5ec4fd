//! The provider itself: what it supports, how it checks a request, how it
//! reads a request that a client wrote as JSON, and what it does when the
//! service refuses tools.

use crate::config::constants::{OPENAI_GPT_5_CODEX, OPENROUTER_API_BASE, OPENROUTER_DEFAULT_MODEL};
use crate::json::{json_views, parsed_json, Json, JsonV};
use crate::llm::error_display::{format_llm_error, llm_error_text};
use crate::llm::provider::{
    message_views, opt_text, opt_tool_call_views, tool_call_views, tool_definition_views,
    LLMError, LLMErrorV, LLMRequest, LLMRequestV, LLMResponse, LLMResponseV, Message, MessageRole,
    MessageV, ToolCall, ToolCallV, ToolChoice, ToolChoiceV, ToolDefinition, ToolDefinitionV,
};
use crate::llm::providers::openrouter::decoder::low_u32;
use crate::llm::providers::openrouter::request::{
    chat_payload, check_reasoning_model, check_tool_unavailable_model,
    convert_to_openrouter_format, convert_to_openrouter_responses_format, invalid_request,
    is_reasoning_model, is_tool_unavailable_model, payload_view, resolve_model, resolved_model,
    responses_payload,
};
use crate::llm::providers::openrouter::response::{
    openrouter_response, parse_openrouter_response, provider_failure, response_view,
    wire_tool_call, wire_tool_calls_from,
};
use crate::text::{
    chars_of, concat, contains_spec, first_non_ws, is_blank, slice_chars, str_contains, str_eq,
    str_is_blank, string_of, trim_start_index, trim_start_spec,
};
use vstd::prelude::*;

verus! {

/// Prompt-cache switches of this provider.
#[derive(Clone, Copy, Debug, PartialEq, Eq, Structural)]
pub struct OpenRouterPromptCacheSettings {
    pub enabled: bool,
    /// Pass the cache markers of the underlying provider through.
    pub propagate_provider_capabilities: bool,
    /// Report what the cache saved.
    pub report_savings: bool,
}

impl Default for OpenRouterPromptCacheSettings {
    fn default() -> (r: Self)
        ensures
            r == (OpenRouterPromptCacheSettings {
                enabled: true,
                propagate_provider_capabilities: true,
                report_savings: true,
            }),
    {
        OpenRouterPromptCacheSettings {
            enabled: true,
            propagate_provider_capabilities: true,
            report_savings: true,
        }
    }
}

/// Prompt-cache settings as the configuration gives them.
#[derive(Clone, Copy, Debug, PartialEq, Eq, Structural)]
pub struct PromptCachingConfig {
    pub enabled: bool,
    pub openrouter: OpenRouterPromptCacheSettings,
}

/// Model of an [`OpenRouterProvider`].
pub struct OpenRouterProviderV {
    pub api_key: Seq<char>,
    pub base_url: Seq<char>,
    pub model: Seq<char>,
    pub prompt_cache_enabled: bool,
    pub prompt_cache_settings: OpenRouterPromptCacheSettings,
}

/// The provider: the key, where the service is, and the model used when
/// a request names none.
#[derive(Debug)]
pub struct OpenRouterProvider {
    pub api_key: String,
    pub base_url: String,
    pub model: String,
    pub prompt_cache_enabled: bool,
    pub prompt_cache_settings: OpenRouterPromptCacheSettings,
}

impl View for OpenRouterProvider {
    type V = OpenRouterProviderV;

    open spec fn view(&self) -> OpenRouterProviderV {
        OpenRouterProviderV {
            api_key: self.api_key@,
            base_url: self.base_url@,
            model: self.model@,
            prompt_cache_enabled: self.prompt_cache_enabled,
            prompt_cache_settings: self.prompt_cache_settings,
        }
    }
}

/// The text of the parts from index `i` on, added to `acc`: of each part
/// its `text`, or else its `content` where that is text.
pub open spec fn content_parts_text_from(parts: Seq<JsonV>, i: int, acc: Seq<char>) -> Seq<char>
    decreases parts.len() - i,
{
    if 0 <= i < parts.len() {
        match parts[i].get_str("text"@) {
            Some(t) => content_parts_text_from(parts, i + 1, acc + t),
            None => match parts[i].get("content"@) {
                Some(JsonV::Str(t)) => content_parts_text_from(parts, i + 1, acc + t),
                _ => content_parts_text_from(parts, i + 1, acc),
            },
        }
    } else {
        acc
    }
}

/// The text of a message content: a text as it stands, the texts of the
/// parts of an array, nothing for anything else.
pub open spec fn content_text(content: JsonV) -> Seq<char> {
    match content {
        JsonV::Str(t) => t,
        JsonV::Array(parts) => content_parts_text_from(parts, 0, Seq::empty()),
        _ => Seq::empty(),
    }
}

/// The tool choice a wire value stands for.
pub open spec fn tool_choice_of(choice: JsonV) -> Option<ToolChoiceV> {
    match choice {
        JsonV::Str(word) => if word == "auto"@ {
            Some(ToolChoiceV::Auto)
        } else if word == "none"@ {
            Some(ToolChoiceV::Off)
        } else if word == "required"@ {
            Some(ToolChoiceV::Any)
        } else {
            None
        },
        JsonV::Object(keys, values) => match choice.get_str("type"@) {
            None => None,
            Some(ty) => if ty == "function"@ {
                match choice.get("function"@) {
                    Some(function) => match function.get_str("name"@) {
                        Some(name) => Some(ToolChoiceV::Specific(name)),
                        None => None,
                    },
                    None => None,
                }
            } else if ty == "auto"@ {
                Some(ToolChoiceV::Auto)
            } else if ty == "none"@ {
                Some(ToolChoiceV::Off)
            } else if ty == "any"@ || ty == "required"@ {
                Some(ToolChoiceV::Any)
            } else {
                None
            },
        },
        _ => None,
    }
}

/// The system prompt and the messages read so far from a client's request.
pub struct ReadMessagesV {
    pub system_prompt: Option<Seq<char>>,
    pub messages: Seq<MessageV>,
}

/// The tool calls of an assistant entry, where it has any.
pub open spec fn entry_tool_calls(entry: JsonV) -> Option<Seq<ToolCallV>> {
    match entry.get("tool_calls"@) {
        Some(JsonV::Array(calls)) => {
            let found = wire_tool_calls_from(calls, 0, Seq::empty());
            if found.len() == 0 {
                None
            } else {
                Some(found)
            }
        },
        _ => None,
    }
}

/// What has been read after one more entry of `messages`. An entry without
/// a role is the user's. The first system entry with text is the system
/// prompt; an assistant entry keeps its tool calls; a tool entry without
/// text keeps its content as JSON.
pub open spec fn read_entry(state: ReadMessagesV, entry: JsonV) -> ReadMessagesV {
    let role = match entry.get_str("role"@) {
        Some(r) => r,
        None => "user"@,
    };
    let text = match entry.get("content"@) {
        Some(c) => content_text(c),
        None => Seq::empty(),
    };
    if role == "system"@ {
        if state.system_prompt is None && text.len() > 0 {
            ReadMessagesV { system_prompt: Some(text), ..state }
        } else {
            state
        }
    } else if role == "assistant"@ {
        ReadMessagesV {
            messages: state.messages.push(
                MessageV {
                    role: MessageRole::Assistant,
                    content: text,
                    tool_calls: entry_tool_calls(entry),
                    tool_call_id: None,
                },
            ),
            ..state
        }
    } else if role == "tool"@ {
        ReadMessagesV {
            messages: state.messages.push(
                MessageV {
                    role: MessageRole::Tool,
                    content: match entry.get("content"@) {
                        Some(v) => if text.len() == 0 {
                            crate::json::json_text(v)
                        } else {
                            text
                        },
                        None => text,
                    },
                    tool_calls: None,
                    tool_call_id: entry.get_str("tool_call_id"@),
                },
            ),
            ..state
        }
    } else {
        ReadMessagesV {
            messages: state.messages.push(MessageV::plain(MessageRole::User, text)),
            ..state
        }
    }
}

/// What has been read after the entries from index `i` on.
pub open spec fn read_entries_from(entries: Seq<JsonV>, i: int, state: ReadMessagesV)
    -> ReadMessagesV
    decreases entries.len() - i,
{
    if 0 <= i < entries.len() {
        read_entries_from(entries, i + 1, read_entry(state, entries[i]))
    } else {
        state
    }
}

/// The tool definition a wire entry stands for; one without a `function`
/// or a name stands for none.
pub open spec fn wire_tool(tool: JsonV) -> Option<ToolDefinitionV> {
    match tool.get("function"@) {
        None => None,
        Some(function) => match function.get_str("name"@) {
            None => None,
            Some(name) => Some(
                ToolDefinitionV {
                    name,
                    description: match function.get_str("description"@) {
                        Some(d) => d,
                        None => Seq::empty(),
                    },
                    parameters: match function.get("parameters"@) {
                        Some(p) => p,
                        None => JsonV::Object(Seq::empty(), Seq::empty()),
                    },
                },
            ),
        },
    }
}

/// The tool definitions of the wire entries from index `i` on, added to
/// `acc`.
pub open spec fn wire_tools_from(tools: Seq<JsonV>, i: int, acc: Seq<ToolDefinitionV>) -> Seq<
    ToolDefinitionV,
>
    decreases tools.len() - i,
{
    if 0 <= i < tools.len() {
        match wire_tool(tools[i]) {
            Some(t) => wire_tools_from(tools, i + 1, acc.push(t)),
            None => wire_tools_from(tools, i + 1, acc),
        }
    } else {
        acc
    }
}

/// The tools of a client's request, where it has any.
pub open spec fn request_tools(value: JsonV) -> Option<Seq<ToolDefinitionV>> {
    match value.get("tools"@) {
        Some(JsonV::Array(tools)) => {
            let found = wire_tools_from(tools, 0, Seq::empty());
            if found.len() == 0 {
                None
            } else {
                Some(found)
            }
        },
        _ => None,
    }
}

/// The reasoning effort of a client's request: its `reasoning_effort`, or
/// else the `effort` of its `reasoning`.
pub open spec fn request_effort(value: JsonV) -> Option<Seq<char>> {
    match value.get_str("reasoning_effort"@) {
        Some(e) => Some(e),
        None => match value.get("reasoning"@) {
            Some(r) => r.get_str("effort"@),
            None => None,
        },
    }
}

/// The request that a client wrote as JSON, for a provider whose own model
/// is `provider_model`; `None` where it has no array `messages` or no
/// message comes of it.
pub open spec fn chat_request(provider_model: Seq<char>, value: JsonV) -> Option<LLMRequestV> {
    match value.get("messages"@) {
        Some(JsonV::Array(entries)) => {
            let read = read_entries_from(
                entries,
                0,
                ReadMessagesV { system_prompt: None, messages: Seq::empty() },
            );
            if read.messages.len() == 0 {
                None
            } else {
                Some(
                    LLMRequestV {
                        messages: read.messages,
                        system_prompt: read.system_prompt,
                        tools: request_tools(value),
                        model: match value.get_str("model"@) {
                            Some(m) => m,
                            None => provider_model,
                        },
                        max_tokens: match value.get_u64("max_tokens"@) {
                            Some(n) => Some(low_u32(n)),
                            None => None,
                        },
                        temperature: match value.get("temperature"@) {
                            Some(t) => if t.is_number() {
                                Some(t)
                            } else {
                                None
                            },
                            None => None,
                        },
                        stream: match value.get("stream"@) {
                            Some(JsonV::Bool(b)) => b,
                            _ => false,
                        },
                        tool_choice: match value.get("tool_choice"@) {
                            Some(c) => tool_choice_of(c),
                            None => None,
                        },
                        parallel_tool_calls: match value.get("parallel_tool_calls"@) {
                            Some(JsonV::Bool(b)) => Some(b),
                            _ => None,
                        },
                        reasoning_effort: request_effort(value),
                    },
                )
            }
        },
        _ => None,
    }
}

/// The request for a bare prompt: one user message, the provider's model,
/// nothing else.
pub open spec fn default_request_for(provider_model: Seq<char>, prompt: Seq<char>) -> LLMRequestV {
    LLMRequestV {
        messages: seq![MessageV::plain(MessageRole::User, prompt)],
        system_prompt: None,
        tools: None,
        model: provider_model,
        max_tokens: None,
        temperature: None,
        stream: false,
        tool_choice: None,
        parallel_tool_calls: None,
        reasoning_effort: None,
    }
}

/// The request a client's prompt stands for: the request it spells out
/// where it is JSON for one, else the request for the bare prompt.
pub open spec fn client_request(provider_model: Seq<char>, prompt: Seq<char>) -> LLMRequestV {
    let trimmed = trim_start_spec(prompt);
    if trimmed.len() > 0 && trimmed[0] == '{' {
        match parsed_json(trimmed) {
            Ok(value) => match chat_request(provider_model, value) {
                Some(request) => request,
                None => default_request_for(provider_model, prompt),
            },
            Err(_) => default_request_for(provider_model, prompt),
        }
    } else {
        default_request_for(provider_model, prompt)
    }
}

/// The defect of the first message from index `i` on that the wire
/// refuses.
pub open spec fn message_defect_from(messages: Seq<MessageV>, i: int) -> Option<Seq<char>>
    decreases messages.len() - i,
{
    if 0 <= i < messages.len() {
        match messages[i].openai_defect() {
            Some(d) => Some(d),
            None => message_defect_from(messages, i + 1),
        }
    } else {
        None
    }
}

/// Why a request cannot be sent, if it cannot: it has no messages, one of
/// its messages is refused by the wire, or it names no model.
pub open spec fn request_defect(request: LLMRequestV) -> Option<LLMErrorV> {
    if request.messages.len() == 0 {
        Some(invalid_request("Messages cannot be empty"@))
    } else {
        match message_defect_from(request.messages, 0) {
            Some(d) => Some(invalid_request(d)),
            None => if is_blank(request.model) {
                Some(invalid_request("Model must be provided"@))
            } else {
                None
            },
        }
    }
}

/// Whether a request brings tools.
pub open spec fn includes_tools(request: LLMRequestV) -> bool {
    request.tools is Some && request.tools->0.len() > 0
}

/// A request without its tools: no tools, tool use switched off, nothing
/// said of parallel calls.
pub open spec fn tool_free(request: LLMRequestV) -> LLMRequestV {
    LLMRequestV {
        tools: None,
        tool_choice: Some(ToolChoiceV::Off),
        parallel_tool_calls: None,
        ..request
    }
}

/// What the service says when no endpoint of a model can use tools.
pub open spec fn tool_unsupported_marker() -> Seq<char> {
    "No endpoints found that support tool use"@
}

/// Whether an answer says that tools are not supported: status 404 with
/// the marker in its body.
pub open spec fn is_tool_unsupported(status: u16, body: Seq<char>) -> bool {
    status == 404 && contains_spec(body, tool_unsupported_marker())
}

/// Whether an answer asks the caller to back off: status 429, or a body
/// that speaks of a quota.
pub open spec fn is_rate_limited(status: u16, body: Seq<char>) -> bool {
    status == 429 || contains_spec(body, "quota"@)
}

/// Whether a status says that the request succeeded.
pub open spec fn is_success(status: u16) -> bool {
    200 <= status < 300
}

/// The payload and the address for a request: the response wire for the
/// model it serves, the chat-completion wire for every other; `stream` is
/// overridden where asked.
pub open spec fn provider_payload(
    provider: OpenRouterProviderV,
    request: LLMRequestV,
    stream_override: Option<bool>,
) -> Result<(JsonV, Seq<char>), LLMErrorV> {
    let codex = resolved_model(provider.model, request) == OPENAI_GPT_5_CODEX@;
    let built = if codex {
        responses_payload(provider.model, request)
    } else {
        chat_payload(provider.model, request)
    };
    match built {
        Err(e) => Err(e),
        Ok(payload) => Ok(
            (
                match stream_override {
                    Some(flag) => payload.with("stream"@, JsonV::Bool(flag)),
                    None => payload,
                },
                if codex {
                    provider.base_url + "/responses"@
                } else {
                    provider.base_url + "/chat/completions"@
                },
            ),
        ),
    }
}

/// Model of a [`SendStep`].
pub enum SendStepV {
    Deliver,
    Retry { payload: JsonV, url: Seq<char> },
    Fail(LLMErrorV),
}

/// What to do with an answer of the service: hand it on, send the request
/// once more without tools, or give up.
#[derive(Debug)]
pub enum SendStep {
    Deliver,
    Retry { payload: Json, url: String },
    Fail(LLMError),
}

impl View for SendStep {
    type V = SendStepV;

    open spec fn view(&self) -> SendStepV {
        match self {
            SendStep::Deliver => SendStepV::Deliver,
            SendStep::Retry { payload, url } => SendStepV::Retry { payload: payload@, url: url@ },
            SendStep::Fail(e) => SendStepV::Fail(e@),
        }
    }
}

/// What to do with the first answer to a request. Success is handed on; a
/// rate limit stops; a refusal of tools, where the request brought any, is
/// met by one more try without them; anything else is a provider error
/// with status and body.
pub open spec fn first_answer_step(
    provider: OpenRouterProviderV,
    request: LLMRequestV,
    stream_override: Option<bool>,
    status: u16,
    status_text: Seq<char>,
    body: Seq<char>,
) -> SendStepV {
    if is_success(status) {
        SendStepV::Deliver
    } else if is_rate_limited(status, body) {
        SendStepV::Fail(LLMErrorV::RateLimit)
    } else if includes_tools(request) && is_tool_unsupported(status, body) {
        match provider_payload(provider, tool_free(request), stream_override) {
            Ok((payload, url)) => SendStepV::Retry { payload, url },
            Err(e) => SendStepV::Fail(e),
        }
    } else {
        SendStepV::Fail(provider_failure("HTTP "@ + status_text + ": "@ + body))
    }
}

/// What to do with the answer to the try without tools: success is handed
/// on, a rate limit stops, and anything else is a provider error that
/// tells of both answers.
pub open spec fn fallback_answer_step(
    first_status_text: Seq<char>,
    first_body: Seq<char>,
    status: u16,
    status_text: Seq<char>,
    body: Seq<char>,
) -> SendStepV {
    if is_success(status) {
        SendStepV::Deliver
    } else if is_rate_limited(status, body) {
        SendStepV::Fail(LLMErrorV::RateLimit)
    } else {
        SendStepV::Fail(
            provider_failure(
                "HTTP "@ + first_status_text + ": "@ + first_body
                    + " | Tool fallback failed with HTTP "@ + status_text + ": "@ + body,
            ),
        )
    }
}

/// No answer leads to a second try without tools: after the try without
/// tools nothing is sent again, and a first answer leads to a retry only
/// where the request brought tools and the service refused them.
pub proof fn lemma_tools_are_retried_once(
    provider: OpenRouterProviderV,
    request: LLMRequestV,
    stream_override: Option<bool>,
    status: u16,
    status_text: Seq<char>,
    body: Seq<char>,
    first_status_text: Seq<char>,
    first_body: Seq<char>,
)
    ensures
        !(fallback_answer_step(first_status_text, first_body, status, status_text, body) is Retry),
        first_answer_step(provider, request, stream_override, status, status_text, body) is Retry
            ==> includes_tools(request) && is_tool_unsupported(status, body),
        is_success(status) ==> first_answer_step(
            provider,
            request,
            stream_override,
            status,
            status_text,
            body,
        ) is Deliver,
{
}

/// The model of an optional request.
pub open spec fn opt_request_view(request: Option<LLMRequest>) -> Option<LLMRequestV> {
    match request {
        Some(r) => Some(r@),
        None => None,
    }
}

/// The model of a payload and its address.
pub open spec fn target_view(result: Result<(Json, String), LLMError>) -> Result<
    (JsonV, Seq<char>),
    LLMErrorV,
> {
    match result {
        Ok((p, u)) => Ok((p@, u@)),
        Err(e) => Err(e@),
    }
}

/// The text of a message content.
pub fn extract_content_text(content: &Json) -> (r: String)
    ensures
        r@ == content_text(content@),
{
    match content {
        Json::Str(text) => text.clone(),
        Json::Array(parts) => {
            let ghost views = content@->Array_0;
            let mut text = String::new();
            let mut i: usize = 0;
            while i < parts.len()
                invariant
                    i <= parts.len(),
                    views == json_views(parts@),
                    content_parts_text_from(views, i as int, text@) == content_parts_text_from(
                        views,
                        0,
                        Seq::empty(),
                    ),
                decreases parts.len() - i,
            {
                if let Some(t) = parts[i].get_str("text") {
                    text.append(t);
                } else if let Some(Json::Str(t)) = parts[i].get("content") {
                    text.append(t.as_str());
                }
                i += 1;
            }
            text
        },
        _ => String::new(),
    }
}

/// The tool choice a wire value stands for.
pub fn parse_tool_choice(choice: &Json) -> (r: Option<ToolChoice>)
    ensures
        crate::llm::provider::opt_tool_choice_view(r) == tool_choice_of(choice@),
{
    match choice {
        Json::Str(value) => {
            let word = value.as_str();
            if str_eq(word, "auto") {
                Some(ToolChoice::auto())
            } else if str_eq(word, "none") {
                Some(ToolChoice::none())
            } else if str_eq(word, "required") {
                Some(ToolChoice::any())
            } else {
                None
            }
        },
        Json::Object(_) => {
            let ty = match choice.get_str("type") {
                Some(ty) => ty,
                None => {
                    return None;
                },
            };
            if str_eq(ty, "function") {
                match choice.get("function") {
                    Some(function) => match function.get_str("name") {
                        Some(name) => Some(ToolChoice::function(name.to_owned())),
                        None => None,
                    },
                    None => None,
                }
            } else if str_eq(ty, "auto") {
                Some(ToolChoice::auto())
            } else if str_eq(ty, "none") {
                Some(ToolChoice::none())
            } else if str_eq(ty, "any") || str_eq(ty, "required") {
                Some(ToolChoice::any())
            } else {
                None
            }
        },
        _ => None,
    }
}

/// Model of what [`ReadMessages`] holds.
pub open spec fn read_view(system_prompt: Option<String>, messages: Vec<Message>) -> ReadMessagesV {
    ReadMessagesV { system_prompt: opt_text(system_prompt), messages: message_views(messages@) }
}

fn read_entry_tool_calls(entry: &Json) -> (r: Option<Vec<ToolCall>>)
    ensures
        opt_tool_call_views(r) == entry_tool_calls(entry@),
{
    let value = match entry.get("tool_calls") {
        Some(value) => value,
        None => {
            return None;
        },
    };
    let calls = match value.as_array() {
        Some(calls) => calls,
        None => {
            return None;
        },
    };
    let ghost views = json_views(calls@);
    let mut found: Vec<ToolCall> = Vec::new();
    assert(tool_call_views(found@) =~= Seq::empty());
    let mut i: usize = 0;
    while i < calls.len()
        invariant
            i <= calls.len(),
            views == json_views(calls@),
            wire_tool_calls_from(views, i as int, tool_call_views(found@)) == wire_tool_calls_from(
                views,
                0,
                Seq::empty(),
            ),
        decreases calls.len() - i,
    {
        if let Some(call) = crate::llm::providers::openrouter::response::read_tool_call(&calls[i]) {
            let ghost before = tool_call_views(found@);
            found.push(call);
            assert(tool_call_views(found@) =~= before.push(call@));
        }
        i += 1;
    }
    if found.len() == 0 {
        None
    } else {
        Some(found)
    }
}

fn take_entry(system_prompt: &mut Option<String>, messages: &mut Vec<Message>, entry: &Json)
    ensures
        read_view(*final(system_prompt), *final(messages)) == read_entry(
            read_view(*old(system_prompt), *old(messages)),
            entry@,
        ),
{
    let role = match entry.get_str("role") {
        Some(r) => r,
        None => "user",
    };
    let text = match entry.get("content") {
        Some(c) => extract_content_text(c),
        None => String::new(),
    };
    let ghost before = message_views(messages@);
    if str_eq(role, "system") {
        if system_prompt.is_none() && !text.as_str().is_empty() {
            *system_prompt = Some(text);
        }
    } else if str_eq(role, "assistant") {
        let message = Message {
            role: MessageRole::Assistant,
            content: text,
            tool_calls: read_entry_tool_calls(entry),
            tool_call_id: None,
        };
        messages.push(message);
        assert(message_views(messages@) =~= before.push(message@));
    } else if str_eq(role, "tool") {
        let tool_call_id = match entry.get_str("tool_call_id") {
            Some(id) => Some(id.to_owned()),
            None => None,
        };
        let content = match entry.get("content") {
            Some(value) => if text.as_str().is_empty() {
                value.to_text()
            } else {
                text
            },
            None => text,
        };
        let message = Message { role: MessageRole::Tool, content, tool_calls: None, tool_call_id };
        messages.push(message);
        assert(message_views(messages@) =~= before.push(message@));
    } else {
        let message = Message::user(text);
        messages.push(message);
        assert(message_views(messages@) =~= before.push(message@));
    }
}

fn read_wire_tool(tool: &Json) -> (r: Option<ToolDefinition>)
    ensures
        match r {
            Some(t) => wire_tool(tool@) == Some(t@),
            None => wire_tool(tool@) is None,
        },
{
    let function = match tool.get("function") {
        Some(function) => function,
        None => {
            return None;
        },
    };
    let name = match function.get_str("name") {
        Some(name) => name,
        None => {
            return None;
        },
    };
    let description = match function.get_str("description") {
        Some(d) => d.to_owned(),
        None => String::new(),
    };
    let parameters = match function.get("parameters") {
        Some(p) => p.duplicate(),
        None => Json::empty_object(),
    };
    Some(ToolDefinition::function(name.to_owned(), description, parameters))
}

fn read_request_tools(value: &Json) -> (r: Option<Vec<ToolDefinition>>)
    ensures
        crate::llm::provider::opt_tool_definition_views(r) == request_tools(value@),
{
    let listed = match value.get("tools") {
        Some(listed) => listed,
        None => {
            return None;
        },
    };
    let tools = match listed.as_array() {
        Some(tools) => tools,
        None => {
            return None;
        },
    };
    let ghost views = json_views(tools@);
    let mut found: Vec<ToolDefinition> = Vec::new();
    assert(tool_definition_views(found@) =~= Seq::empty());
    let mut i: usize = 0;
    while i < tools.len()
        invariant
            i <= tools.len(),
            views == json_views(tools@),
            wire_tools_from(views, i as int, tool_definition_views(found@)) == wire_tools_from(
                views,
                0,
                Seq::empty(),
            ),
        decreases tools.len() - i,
    {
        if let Some(tool) = read_wire_tool(&tools[i]) {
            let ghost before = tool_definition_views(found@);
            found.push(tool);
            assert(tool_definition_views(found@) =~= before.push(tool@));
        }
        i += 1;
    }
    if found.len() == 0 {
        None
    } else {
        Some(found)
    }
}

impl OpenRouterProvider {
    /// A provider for the default model.
    pub fn new(api_key: String) -> (r: OpenRouterProvider)
        ensures
            r@ == (OpenRouterProviderV {
                api_key: api_key@,
                base_url: OPENROUTER_API_BASE@,
                model: OPENROUTER_DEFAULT_MODEL@,
                prompt_cache_enabled: false,
                prompt_cache_settings: OpenRouterPromptCacheSettings {
                    enabled: true,
                    propagate_provider_capabilities: true,
                    report_savings: true,
                },
            }),
    {
        Self::with_model_internal(api_key, OPENROUTER_DEFAULT_MODEL.to_owned(), None)
    }

    /// A provider for the given model.
    pub fn with_model(api_key: String, model: String) -> (r: OpenRouterProvider)
        ensures
            r@ == (OpenRouterProviderV {
                api_key: api_key@,
                base_url: OPENROUTER_API_BASE@,
                model: model@,
                prompt_cache_enabled: false,
                prompt_cache_settings: OpenRouterPromptCacheSettings {
                    enabled: true,
                    propagate_provider_capabilities: true,
                    report_savings: true,
                },
            }),
    {
        Self::with_model_internal(api_key, model, None)
    }

    /// A provider as the configuration describes it: a missing key is the
    /// empty key, a missing model the default model, a missing address the
    /// address of the service.
    pub fn from_config(
        api_key: Option<String>,
        model: Option<String>,
        base_url: Option<String>,
        prompt_cache: Option<PromptCachingConfig>,
    ) -> (r: OpenRouterProvider)
        ensures
            r@ == (OpenRouterProviderV {
                api_key: match api_key {
                    Some(k) => k@,
                    None => Seq::empty(),
                },
                base_url: match base_url {
                    Some(b) => b@,
                    None => OPENROUTER_API_BASE@,
                },
                model: match model {
                    Some(m) => m@,
                    None => OPENROUTER_DEFAULT_MODEL@,
                },
                prompt_cache_enabled: cache_enabled(prompt_cache),
                prompt_cache_settings: cache_settings(prompt_cache),
            }),
    {
        let api_key_value = match api_key {
            Some(k) => k,
            None => String::new(),
        };
        let model_value = match model {
            Some(m) => m,
            None => OPENROUTER_DEFAULT_MODEL.to_owned(),
        };
        let mut provider = Self::with_model_internal(api_key_value, model_value, prompt_cache);
        if let Some(base) = base_url {
            provider.base_url = base;
        }
        provider
    }

    fn with_model_internal(
        api_key: String,
        model: String,
        prompt_cache: Option<PromptCachingConfig>,
    ) -> (r: OpenRouterProvider)
        ensures
            r@ == (OpenRouterProviderV {
                api_key: api_key@,
                base_url: OPENROUTER_API_BASE@,
                model: model@,
                prompt_cache_enabled: cache_enabled(prompt_cache),
                prompt_cache_settings: cache_settings(prompt_cache),
            }),
    {
        let (prompt_cache_enabled, prompt_cache_settings) = Self::extract_prompt_cache_settings(
            prompt_cache,
        );
        OpenRouterProvider {
            api_key,
            base_url: OPENROUTER_API_BASE.to_owned(),
            model,
            prompt_cache_enabled,
            prompt_cache_settings,
        }
    }

    /// Whether the cache is on, and with which switches: on only where the
    /// configuration and the provider's own switch both say so.
    pub fn extract_prompt_cache_settings(prompt_cache: Option<PromptCachingConfig>) -> (r: (
        bool,
        OpenRouterPromptCacheSettings,
    ))
        ensures
            r.0 == cache_enabled(prompt_cache),
            r.1 == cache_settings(prompt_cache),
    {
        match prompt_cache {
            Some(cfg) => (cfg.enabled && cfg.openrouter.enabled, cfg.openrouter),
            None => (
                false,
                OpenRouterPromptCacheSettings {
                    enabled: true,
                    propagate_provider_capabilities: true,
                    report_savings: true,
                },
            ),
        }
    }

    /// The provider's name.
    pub fn name(&self) -> (r: &'static str)
        ensures
            r@ == "openrouter"@,
    {
        "openrouter"
    }

    /// Responses can be streamed.
    pub fn supports_streaming(&self) -> (r: bool)
        ensures
            r,
    {
        true
    }

    fn requested<'a>(&'a self, model: &'a str) -> (r: &'a str)
        ensures
            r@ == if is_blank(model@) {
                self@.model
            } else {
                model@
            },
    {
        if str_is_blank(model) {
            self.model.as_str()
        } else {
            model
        }
    }

    /// Whether the model, or the provider's own where none is named,
    /// reasons.
    pub fn supports_reasoning(&self, model: &str) -> (r: bool)
        ensures
            r == is_reasoning_model(
                if is_blank(model@) {
                    self@.model
                } else {
                    model@
                },
            ),
    {
        check_reasoning_model(self.requested(model))
    }

    /// Whether the model, or the provider's own where none is named,
    /// takes a reasoning effort.
    pub fn supports_reasoning_effort(&self, model: &str) -> (r: bool)
        ensures
            r == is_reasoning_model(
                if is_blank(model@) {
                    self@.model
                } else {
                    model@
                },
            ),
    {
        check_reasoning_model(self.requested(model))
    }

    /// Whether the model, or the provider's own where none is named, can
    /// call tools.
    pub fn supports_tools(&self, model: &str) -> (r: bool)
        ensures
            r == !is_tool_unavailable_model(
                if is_blank(model@) {
                    self@.model
                } else {
                    model@
                },
            ),
    {
        !check_tool_unavailable_model(self.requested(model))
    }

    /// The models the provider knows.
    pub fn supported_models(&self) -> (r: Vec<String>)
        ensures
            r@.len() == 6,
            r@[0]@ == OPENROUTER_DEFAULT_MODEL@,
            r@[1]@ == "openai/gpt-5"@,
            r@[2]@ == OPENAI_GPT_5_CODEX@,
            r@[3]@ == "qwen/qwen3-coder"@,
            r@[4]@ == "deepseek/deepseek-chat-v3.1"@,
            r@[5]@ == "deepseek/deepseek-r1"@,
    {
        let mut models: Vec<String> = Vec::new();
        models.push(OPENROUTER_DEFAULT_MODEL.to_owned());
        models.push("openai/gpt-5".to_owned());
        models.push(OPENAI_GPT_5_CODEX.to_owned());
        models.push("qwen/qwen3-coder".to_owned());
        models.push("deepseek/deepseek-chat-v3.1".to_owned());
        models.push("deepseek/deepseek-r1".to_owned());
        models
    }

    /// Checks a request before it is sent.
    pub fn validate_request(&self, request: &LLMRequest) -> (r: Result<(), LLMError>)
        ensures
            match r {
                Ok(_) => request_defect(request@) is None,
                Err(e) => request_defect(request@) == Some(e@),
            },
    {
        if request.messages.len() == 0 {
            return Err(
                LLMError::InvalidRequest(format_llm_error("OpenRouter", "Messages cannot be empty")),
            );
        }
        let ghost all = message_views(request.messages@);
        let mut i: usize = 0;
        while i < request.messages.len()
            invariant
                i <= request.messages.len(),
                all == message_views(request.messages@),
                message_defect_from(all, i as int) == message_defect_from(all, 0),
            decreases request.messages.len() - i,
        {
            if let Err(err) = request.messages[i].validate_for_openai() {
                return Err(
                    LLMError::InvalidRequest(format_llm_error("OpenRouter", err.as_str())),
                );
            }
            i += 1;
        }
        if str_is_blank(request.model.as_str()) {
            return Err(
                LLMError::InvalidRequest(format_llm_error("OpenRouter", "Model must be provided")),
            );
        }
        Ok(())
    }

    /// The request for a bare prompt.
    pub fn default_request(&self, prompt: &str) -> (r: LLMRequest)
        ensures
            r@ == default_request_for(self@.model, prompt@),
    {
        let mut messages: Vec<Message> = Vec::new();
        let message = Message::user(prompt.to_owned());
        messages.push(message);
        assert(message_views(messages@) =~= seq![message@]);
        LLMRequest {
            messages,
            system_prompt: None,
            tools: None,
            model: self.model.clone(),
            max_tokens: None,
            temperature: None,
            stream: false,
            tool_choice: None,
            parallel_tool_calls: None,
            reasoning_effort: None,
        }
    }

    /// The request a client's prompt stands for, given what parsing the
    /// prompt without its leading whitespace as JSON yielded.
    pub fn parse_client_prompt(&self, prompt: &str) -> (r: LLMRequest)
        ensures
            r@ == client_request(self@.model, prompt@),
    {
        let chars = chars_of(prompt);
        let start = trim_start_index(chars.as_slice());
        let trimmed = slice_chars(chars.as_slice(), start, chars.len());
        if trimmed.len() > 0 && trimmed[0] == '{' {
            let text = string_of(trimmed.as_slice());
            if let Ok(value) = Json::parse(text.as_str()) {
                if let Some(request) = self.parse_chat_request(&value) {
                    return request;
                }
            }
        }
        self.default_request(prompt)
    }

    /// Reads a request that a client wrote as JSON.
    pub fn parse_chat_request(&self, value: &Json) -> (r: Option<LLMRequest>)
        ensures
            opt_request_view(r) == chat_request(self@.model, value@),
    {
        let listed = match value.get("messages") {
            Some(listed) => listed,
            None => {
                return None;
            },
        };
        let entries = match listed.as_array() {
            Some(entries) => entries,
            None => {
                return None;
            },
        };
        let mut system_prompt: Option<String> = None;
        let mut messages: Vec<Message> = Vec::new();
        assert(message_views(messages@) =~= Seq::empty());
        let ghost views = json_views(entries@);
        let ghost start = read_view(system_prompt, messages);
        let mut i: usize = 0;
        while i < entries.len()
            invariant
                i <= entries.len(),
                views == json_views(entries@),
                read_entries_from(views, i as int, read_view(system_prompt, messages))
                    == read_entries_from(views, 0, start),
            decreases entries.len() - i,
        {
            take_entry(&mut system_prompt, &mut messages, &entries[i]);
            i += 1;
        }
        if messages.len() == 0 {
            return None;
        }
        let tools = read_request_tools(value);
        let max_tokens = match value.get_u64("max_tokens") {
            Some(n) => Some((n % 0x1_0000_0000) as u32),
            None => None,
        };
        let temperature = match value.get("temperature") {
            Some(t) => if t.is_number() {
                Some(t.duplicate())
            } else {
                None
            },
            None => None,
        };
        let stream = match value.get("stream") {
            Some(Json::Bool(b)) => *b,
            _ => false,
        };
        let tool_choice = match value.get("tool_choice") {
            Some(c) => parse_tool_choice(c),
            None => None,
        };
        let parallel_tool_calls = match value.get("parallel_tool_calls") {
            Some(Json::Bool(b)) => Some(*b),
            _ => None,
        };
        let reasoning_effort = match value.get_str("reasoning_effort") {
            Some(e) => Some(e.to_owned()),
            None => match value.get("reasoning") {
                Some(r) => match r.get_str("effort") {
                    Some(e) => Some(e.to_owned()),
                    None => None,
                },
                None => None,
            },
        };
        let model = match value.get_str("model") {
            Some(m) => m.to_owned(),
            None => self.model.clone(),
        };
        Some(
            LLMRequest {
                messages,
                system_prompt,
                tools,
                model,
                max_tokens,
                temperature,
                stream,
                tool_choice,
                parallel_tool_calls,
                reasoning_effort,
            },
        )
    }

    /// Whether a model is the one the response wire serves.
    pub fn is_gpt5_codex_model(model: &str) -> (r: bool)
        ensures
            r == (model@ == OPENAI_GPT_5_CODEX@),
    {
        str_eq(model, OPENAI_GPT_5_CODEX)
    }

    /// The model a request is for.
    pub fn resolve_model<'a>(&'a self, request: &'a LLMRequest) -> (r: &'a str)
        ensures
            r@ == resolved_model(self@.model, request@),
    {
        resolve_model(self.model.as_str(), request)
    }

    /// Whether a request goes over the response wire.
    pub fn uses_responses_api_for(&self, request: &LLMRequest) -> (r: bool)
        ensures
            r == (resolved_model(self@.model, request@) == OPENAI_GPT_5_CODEX@),
    {
        Self::is_gpt5_codex_model(self.resolve_model(request))
    }

    /// Whether a request brings tools.
    pub fn request_includes_tools(request: &LLMRequest) -> (r: bool)
        ensures
            r == includes_tools(request@),
    {
        match &request.tools {
            Some(tools) => tools.len() > 0,
            None => false,
        }
    }

    /// A request without its tools.
    pub fn tool_free_request(original: &LLMRequest) -> (r: LLMRequest)
        ensures
            r@ == tool_free(original@),
    {
        let mut sanitized = original.duplicate();
        sanitized.tools = None;
        sanitized.tool_choice = Some(ToolChoice::none());
        sanitized.parallel_tool_calls = None;
        sanitized
    }

    /// The payload and the address for a request.
    pub fn build_provider_payload(&self, request: &LLMRequest, stream_override: Option<bool>) -> (r:
        Result<(Json, String), LLMError>)
        ensures
            target_view(r) == provider_payload(self@, request@, stream_override),
    {
        let codex = self.uses_responses_api_for(request);
        let built = if codex {
            convert_to_openrouter_responses_format(self.model.as_str(), request)
        } else {
            convert_to_openrouter_format(self.model.as_str(), request)
        };
        let payload = match built {
            Ok(payload) => payload,
            Err(e) => {
                return Err(e);
            },
        };
        let payload = match stream_override {
            Some(flag) => payload.with("stream", Json::Bool(flag)),
            None => payload,
        };
        let url = if codex {
            concat(self.base_url.as_str(), "/responses")
        } else {
            concat(self.base_url.as_str(), "/chat/completions")
        };
        Ok((payload, url))
    }

    /// Whether an answer says that tools are not supported.
    pub fn is_tool_unsupported_error(status: u16, body: &str) -> (r: bool)
        ensures
            r == is_tool_unsupported(status, body@),
    {
        status == 404 && str_contains(body, "No endpoints found that support tool use")
    }

    /// Decides what to do with the first answer to a request.
    /// `status_text` is the status as the transport words it.
    pub fn after_first_answer(
        &self,
        request: &LLMRequest,
        stream_override: Option<bool>,
        status: u16,
        status_text: &str,
        body: &str,
    ) -> (r: SendStep)
        ensures
            r@ == first_answer_step(self@, request@, stream_override, status, status_text@, body@),
    {
        if 200 <= status && status < 300 {
            return SendStep::Deliver;
        }
        if status == 429 || str_contains(body, "quota") {
            return SendStep::Fail(LLMError::RateLimit);
        }
        if Self::request_includes_tools(request) && Self::is_tool_unsupported_error(status, body) {
            let fallback_request = Self::tool_free_request(request);
            return match self.build_provider_payload(&fallback_request, stream_override) {
                Ok((payload, url)) => SendStep::Retry { payload, url },
                Err(e) => SendStep::Fail(e),
            };
        }
        let mut detail = "HTTP ".to_owned();
        detail.append(status_text);
        detail.append(": ");
        detail.append(body);
        SendStep::Fail(LLMError::Provider(format_llm_error("OpenRouter", detail.as_str())))
    }

    /// Decides what to do with the answer to the try without tools.
    pub fn after_fallback_answer(
        first_status_text: &str,
        first_body: &str,
        status: u16,
        status_text: &str,
        body: &str,
    ) -> (r: SendStep)
        ensures
            r@ == fallback_answer_step(
                first_status_text@,
                first_body@,
                status,
                status_text@,
                body@,
            ),
    {
        if 200 <= status && status < 300 {
            return SendStep::Deliver;
        }
        if status == 429 || str_contains(body, "quota") {
            return SendStep::Fail(LLMError::RateLimit);
        }
        let mut detail = "HTTP ".to_owned();
        detail.append(first_status_text);
        detail.append(": ");
        detail.append(first_body);
        detail.append(" | Tool fallback failed with HTTP ");
        detail.append(status_text);
        detail.append(": ");
        detail.append(body);
        SendStep::Fail(LLMError::Provider(format_llm_error("OpenRouter", detail.as_str())))
    }

    /// Reads the body of a complete answer.
    pub fn parse_generate_body(&self, body: &str) -> (r: Result<LLMResponse, LLMError>)
        ensures
            response_view(r) == match parsed_json(body@) {
                Ok(value) => openrouter_response(value),
                Err(message) => Err(provider_failure("Failed to parse response: "@ + message)),
            },
    {
        match Json::parse(body) {
            Ok(value) => parse_openrouter_response(&value),
            Err(message) => {
                let detail = concat("Failed to parse response: ", message.as_str());
                Err(LLMError::Provider(format_llm_error("OpenRouter", detail.as_str())))
            },
        }
    }
}

/// Whether the cache is on: only where the configuration and the
/// provider's own switch both say so.
pub open spec fn cache_enabled(prompt_cache: Option<PromptCachingConfig>) -> bool {
    match prompt_cache {
        Some(cfg) => cfg.enabled && cfg.openrouter.enabled,
        None => false,
    }
}

/// The cache switches: those of the configuration, or all on where there
/// is none.
pub open spec fn cache_settings(prompt_cache: Option<PromptCachingConfig>)
    -> OpenRouterPromptCacheSettings {
    match prompt_cache {
        Some(cfg) => cfg.openrouter,
        None => OpenRouterPromptCacheSettings {
            enabled: true,
            propagate_provider_capabilities: true,
            report_savings: true,
        },
    }
}

} // verus!
