//! The encoding of a request for the two wire flavours: chat completion
//! with `messages`, and the response wire with `input` of typed parts.

use crate::config::constants::OPENAI_GPT_5_CODEX;
use crate::json::{json_views, object1, object2, object3, Json, JsonV};
use crate::llm::error_display::{format_llm_error, llm_error_text};
use crate::llm::provider::{
    message_views, tool_call_views, tool_definition_views, LLMError, LLMErrorV, LLMRequest,
    LLMRequestV, Message, MessageRole, MessageV, ToolCall, ToolCallV, ToolDefinition,
    ToolDefinitionV,
};
use crate::text::{is_blank, str_eq, str_is_blank, str_trim, text_views, trim_spec};
use vstd::prelude::*;

verus! {

/// Whether a model takes a reasoning effort.
pub open spec fn is_reasoning_model(model: Seq<char>) -> bool {
    model == "x-ai/grok-4-fast:free"@ || model == "openai/gpt-5"@ || model == OPENAI_GPT_5_CODEX@
        || model == "qwen/qwen3-coder"@ || model == "deepseek/deepseek-chat-v3.1"@
}

/// Whether a model cannot call tools.
pub open spec fn is_tool_unavailable_model(model: Seq<char>) -> bool {
    model == "deepseek/deepseek-r1"@ || model == "mistralai/mistral-7b-instruct:free"@
}

/// Whether a model takes a reasoning effort.
pub fn check_reasoning_model(model: &str) -> (r: bool)
    ensures
        r == is_reasoning_model(model@),
{
    str_eq(model, "x-ai/grok-4-fast:free") || str_eq(model, "openai/gpt-5") || str_eq(
        model,
        OPENAI_GPT_5_CODEX,
    ) || str_eq(model, "qwen/qwen3-coder") || str_eq(model, "deepseek/deepseek-chat-v3.1")
}

/// Whether a model cannot call tools.
pub fn check_tool_unavailable_model(model: &str) -> (r: bool)
    ensures
        r == is_tool_unavailable_model(model@),
{
    str_eq(model, "deepseek/deepseek-r1") || str_eq(model, "mistralai/mistral-7b-instruct:free")
}

/// The model a request is for: its own, or the provider's where it names
/// none.
pub open spec fn resolved_model(provider_model: Seq<char>, request: LLMRequestV) -> Seq<char> {
    if is_blank(request.model) {
        provider_model
    } else {
        request.model
    }
}

/// A tool call on the chat-completion wire.
pub open spec fn chat_tool_call_json(call: ToolCallV) -> JsonV {
    object3(
        "id"@,
        JsonV::Str(call.id),
        "type"@,
        JsonV::Str("function"@),
        "function"@,
        object2("name"@, JsonV::Str(call.name), "arguments"@, JsonV::Str(call.arguments)),
    )
}

/// A message on the chat-completion wire: its role and text, the tool calls
/// of an assistant message that has any, and the call a tool message
/// answers.
pub open spec fn chat_message_json(m: MessageV) -> JsonV {
    let base = object2("role"@, JsonV::Str(m.role.wire_name()), "content"@, JsonV::Str(m.content));
    let with_calls = if m.role == MessageRole::Assistant && m.tool_calls is Some
        && m.tool_calls->0.len() > 0 {
        base.with(
            "tool_calls"@,
            JsonV::Array(
                Seq::new(m.tool_calls->0.len(), |i: int| chat_tool_call_json(m.tool_calls->0[i])),
            ),
        )
    } else {
        base
    };
    if m.role == MessageRole::Tool && m.tool_call_id is Some {
        with_calls.with("tool_call_id"@, JsonV::Str(m.tool_call_id->0))
    } else {
        with_calls
    }
}

/// The messages of a request on the chat-completion wire: the system
/// prompt first, if there is one.
pub open spec fn chat_messages_json(request: LLMRequestV) -> Seq<JsonV> {
    let rest = Seq::new(request.messages.len(), |i: int| chat_message_json(request.messages[i]));
    match request.system_prompt {
        Some(prompt) => seq![object2("role"@, JsonV::Str("system"@), "content"@, JsonV::Str(prompt))]
            + rest,
        None => rest,
    }
}

/// A tool definition on the wire.
pub open spec fn tool_json(tool: ToolDefinitionV) -> JsonV {
    object2(
        "type"@,
        JsonV::Str("function"@),
        "function"@,
        object3(
            "name"@,
            JsonV::Str(tool.name),
            "description"@,
            JsonV::Str(tool.description),
            "parameters"@,
            tool.parameters,
        ),
    )
}

/// A payload with the options of a request added: the token limit under
/// `limit_key`, the temperature, the tools unless there are none, the tool
/// choice, whether tools may run in parallel, and the reasoning effort
/// where the model takes one.
pub open spec fn with_options(
    base: JsonV,
    request: LLMRequestV,
    model: Seq<char>,
    limit_key: Seq<char>,
) -> JsonV {
    let o1 = match request.max_tokens {
        Some(n) => base.with(limit_key, JsonV::PosInt(n as int)),
        None => base,
    };
    let o2 = match request.temperature {
        Some(t) => o1.with("temperature"@, t),
        None => o1,
    };
    let o3 = match request.tools {
        Some(tools) => if tools.len() > 0 {
            o2.with("tools"@, JsonV::Array(Seq::new(tools.len(), |i: int| tool_json(tools[i]))))
        } else {
            o2
        },
        None => o2,
    };
    let o4 = match request.tool_choice {
        Some(choice) => o3.with("tool_choice"@, choice.openai_format()),
        None => o3,
    };
    let o5 = match request.parallel_tool_calls {
        Some(parallel) => o4.with("parallel_tool_calls"@, JsonV::Bool(parallel)),
        None => o4,
    };
    match request.reasoning_effort {
        Some(effort) => if is_reasoning_model(model) {
            o5.with("reasoning"@, object1("effort"@, JsonV::Str(effort)))
        } else {
            o5
        },
        None => o5,
    }
}

/// The error for a request that cannot be sent.
pub open spec fn invalid_request(message: Seq<char>) -> LLMErrorV {
    LLMErrorV::InvalidRequest(llm_error_text("OpenRouter"@, message))
}

/// The chat-completion payload of a request, or the error for a request
/// without messages.
pub open spec fn chat_payload(provider_model: Seq<char>, request: LLMRequestV) -> Result<
    JsonV,
    LLMErrorV,
> {
    let model = resolved_model(provider_model, request);
    let messages = chat_messages_json(request);
    if messages.len() == 0 {
        Err(invalid_request("No messages provided"@))
    } else {
        Ok(
            with_options(
                object3(
                    "model"@,
                    JsonV::Str(model),
                    "messages"@,
                    JsonV::Array(messages),
                    "stream"@,
                    JsonV::Bool(request.stream),
                ),
                request,
                model,
                "max_tokens"@,
            ),
        )
    }
}

/// A text part of the response wire.
pub open spec fn text_part(kind: Seq<char>, text: Seq<char>) -> JsonV {
    object2("type"@, JsonV::Str(kind), "text"@, JsonV::Str(text))
}

/// An entry of `input`: a role and its content parts.
pub open spec fn input_entry(role: Seq<char>, parts: Seq<JsonV>) -> JsonV {
    object2("role"@, JsonV::Str(role), "content"@, JsonV::Array(parts))
}

/// A tool call as a content part of the response wire.
pub open spec fn tool_call_part(call: ToolCallV) -> JsonV {
    JsonV::Object(
        seq!["type"@, "id"@, "name"@, "arguments"@],
        seq![
            JsonV::Str("tool_call"@),
            JsonV::Str(call.id),
            JsonV::Str(call.name),
            JsonV::Str(call.arguments),
        ],
    )
}

/// The content parts of an assistant message: its text unless it is empty,
/// then its tool calls.
pub open spec fn assistant_parts(m: MessageV) -> Seq<JsonV> {
    let text = if m.content.len() > 0 {
        seq![text_part("output_text"@, m.content)]
    } else {
        Seq::empty()
    };
    match m.tool_calls {
        Some(calls) => text + Seq::new(calls.len(), |i: int| tool_call_part(calls[i])),
        None => text,
    }
}

/// The result part of a tool message: the call it answers, and its text
/// unless that is blank.
pub open spec fn tool_result_part(call_id: Seq<char>, content: Seq<char>) -> JsonV {
    let base = object2("type"@, JsonV::Str("tool_result"@), "tool_call_id"@, JsonV::Str(call_id));
    if !is_blank(content) {
        base.with("content"@, JsonV::Array(seq![text_part("output_text"@, content)]))
    } else {
        base
    }
}

/// The error for a tool message that does not name the call it answers.
pub open spec fn missing_call_id() -> LLMErrorV {
    invalid_request("Tool messages must include tool_call_id for Responses API"@)
}

/// What one message adds to `input`, `codex` saying whether system
/// messages are kept out of it: a system message becomes a developer entry
/// unless it is blank or kept out, a user message a user entry, an
/// assistant message an entry of its parts unless it has none, a tool
/// message an entry with its result. A tool message that names no call is
/// an error.
pub open spec fn input_after(input: Seq<JsonV>, m: MessageV, codex: bool) -> Result<
    Seq<JsonV>,
    LLMErrorV,
> {
    match m.role {
        MessageRole::System => if codex || is_blank(m.content) {
            Ok(input)
        } else {
            Ok(input.push(input_entry("developer"@, seq![text_part("input_text"@, m.content)])))
        },
        MessageRole::User => Ok(
            input.push(input_entry("user"@, seq![text_part("input_text"@, m.content)])),
        ),
        MessageRole::Assistant => if assistant_parts(m).len() > 0 {
            Ok(input.push(input_entry("assistant"@, assistant_parts(m))))
        } else {
            Ok(input)
        },
        MessageRole::Tool => match m.tool_call_id {
            None => Err(missing_call_id()),
            Some(id) => Ok(input.push(input_entry("tool"@, seq![tool_result_part(id, m.content)]))),
        },
    }
}

/// What the messages from index `i` on add to `input`.
pub open spec fn input_from(messages: Seq<MessageV>, i: int, input: Seq<JsonV>, codex: bool)
    -> Result<Seq<JsonV>, LLMErrorV>
    decreases messages.len() - i,
{
    if 0 <= i < messages.len() {
        match input_after(input, messages[i], codex) {
            Err(e) => Err(e),
            Ok(next) => input_from(messages, i + 1, next, codex),
        }
    } else {
        Ok(input)
    }
}

/// The `input` of a request on the response wire: the system prompt as a
/// developer entry unless it is blank, then the messages.
pub open spec fn standard_input(request: LLMRequestV) -> Result<Seq<JsonV>, LLMErrorV> {
    let seed = match request.system_prompt {
        Some(prompt) => if !is_blank(prompt) {
            seq![input_entry("developer"@, seq![text_part("input_text"@, prompt)])]
        } else {
            Seq::empty()
        },
        None => Seq::empty(),
    };
    input_from(request.messages, 0, seed, false)
}

/// The guidance `acc` after the system messages from index `i` on are
/// added, each trimmed, blank ones left out.
pub open spec fn guidance_from(messages: Seq<MessageV>, i: int, acc: Seq<Seq<char>>) -> Seq<
    Seq<char>,
>
    decreases messages.len() - i,
{
    if 0 <= i < messages.len() {
        if messages[i].role == MessageRole::System && !is_blank(messages[i].content) {
            guidance_from(messages, i + 1, acc.push(trim_spec(messages[i].content)))
        } else {
            guidance_from(messages, i + 1, acc)
        }
    } else {
        acc
    }
}

/// The guidance a request gives beyond the fixed developer prompt: its
/// system prompt and its system messages, trimmed, blank ones left out.
pub open spec fn codex_guidance(request: LLMRequestV) -> Seq<Seq<char>> {
    let seed = match request.system_prompt {
        Some(prompt) => if !is_blank(prompt) {
            seq![trim_spec(prompt)]
        } else {
            Seq::empty()
        },
        None => Seq::empty(),
    };
    guidance_from(request.messages, 0, seed)
}

/// The fixed part of the developer prompt.
pub open spec fn developer_prompt_base() -> Seq<char> {
    "You are a coding agent that works in the user's terminal. Be precise, safe and helpful."@
}

/// The developer prompt from index `i` of the guidance on, added to `out`:
/// each piece of guidance follows after an empty line.
pub open spec fn developer_prompt_from(guidance: Seq<Seq<char>>, i: int, out: Seq<char>) -> Seq<
    char,
>
    decreases guidance.len() - i,
{
    if 0 <= i < guidance.len() {
        developer_prompt_from(guidance, i + 1, out + "\n\n"@ + guidance[i])
    } else {
        out
    }
}

/// The developer prompt: the fixed part, then each piece of guidance after
/// an empty line.
pub open spec fn developer_prompt(guidance: Seq<Seq<char>>) -> Seq<char> {
    developer_prompt_from(guidance, 0, developer_prompt_base())
}

/// The `input` of a request for the model that takes a developer prompt:
/// the developer prompt with the request's guidance first, then the
/// messages without the system ones.
pub open spec fn codex_input(request: LLMRequestV) -> Result<Seq<JsonV>, LLMErrorV> {
    match input_from(request.messages, 0, Seq::empty(), true) {
        Err(e) => Err(e),
        Ok(input) => Ok(
            seq![
                input_entry(
                    "developer"@,
                    seq![text_part("input_text"@, developer_prompt(codex_guidance(request)))],
                ),
            ] + input,
        ),
    }
}

/// The response-wire payload of a request, or the error that stops it.
pub open spec fn responses_payload(provider_model: Seq<char>, request: LLMRequestV) -> Result<
    JsonV,
    LLMErrorV,
> {
    let model = resolved_model(provider_model, request);
    let codex = model == OPENAI_GPT_5_CODEX@;
    let input = if codex {
        codex_input(request)
    } else {
        standard_input(request)
    };
    match input {
        Err(e) => Err(e),
        Ok(entries) => if entries.len() == 0 {
            Err(invalid_request("No messages provided for Responses API"@))
        } else {
            let payload = with_options(
                object3(
                    "model"@,
                    JsonV::Str(model),
                    "input"@,
                    JsonV::Array(entries),
                    "stream"@,
                    JsonV::Bool(request.stream),
                ),
                request,
                model,
                "max_output_tokens"@,
            );
            if codex {
                Ok(payload.with("reasoning"@, object1("effort"@, JsonV::Str("medium"@))))
            } else {
                Ok(payload)
            }
        },
    }
}

/// The model of a payload result.
pub open spec fn payload_view(result: Result<Json, LLMError>) -> Result<JsonV, LLMErrorV> {
    match result {
        Ok(p) => Ok(p@),
        Err(e) => Err(e@),
    }
}

/// The model of an input result.
pub open spec fn input_view(result: Result<Vec<Json>, LLMError>) -> Result<Seq<JsonV>, LLMErrorV> {
    match result {
        Ok(p) => Ok(json_views(p@)),
        Err(e) => Err(e@),
    }
}

fn make_invalid_request(message: &str) -> (r: LLMError)
    ensures
        r@ == invalid_request(message@),
{
    LLMError::InvalidRequest(format_llm_error("OpenRouter", message))
}

fn make_text_part(kind: &str, text: &str) -> (r: Json)
    ensures
        r@ == text_part(kind@, text@),
{
    Json::object2("type", Json::string(kind), "text", Json::string(text))
}

fn make_input_entry(role: &str, parts: Vec<Json>) -> (r: Json)
    ensures
        r@ == input_entry(role@, json_views(parts@)),
{
    Json::object2("role", Json::string(role), "content", Json::array(parts))
}

fn single(item: Json) -> (r: Vec<Json>)
    ensures
        json_views(r@) == seq![item@],
{
    let mut v: Vec<Json> = Vec::new();
    v.push(item);
    assert(json_views(v@) =~= seq![item@]);
    v
}

fn make_chat_tool_call(call: &ToolCall) -> (r: Json)
    ensures
        r@ == chat_tool_call_json(call@),
{
    Json::object3(
        "id",
        Json::string(call.id.as_str()),
        "type",
        Json::string("function"),
        "function",
        Json::object2(
            "name",
            Json::string(call.function.name.as_str()),
            "arguments",
            Json::string(call.function.arguments.as_str()),
        ),
    )
}

fn make_chat_message(m: &Message) -> (r: Json)
    ensures
        r@ == chat_message_json(m@),
{
    let mut message = Json::object2(
        "role",
        Json::string(m.role.as_openai_str()),
        "content",
        Json::string(m.content.as_str()),
    );
    if m.role == MessageRole::Assistant {
        if let Some(tool_calls) = &m.tool_calls {
            if tool_calls.len() > 0 {
                let ghost calls = tool_call_views(tool_calls@);
                let mut items: Vec<Json> = Vec::new();
                let mut i: usize = 0;
                while i < tool_calls.len()
                    invariant
                        i <= tool_calls.len(),
                        calls == tool_call_views(tool_calls@),
                        items@.len() == i,
                        forall|k: int| 0 <= k < i ==> items@[k]@ == chat_tool_call_json(calls[k]),
                    decreases tool_calls.len() - i,
                {
                    items.push(make_chat_tool_call(&tool_calls[i]));
                    i += 1;
                }
                assert(json_views(items@) =~= Seq::new(
                    calls.len(),
                    |i: int| chat_tool_call_json(calls[i]),
                ));
                message = message.with("tool_calls", Json::array(items));
            }
        }
    }
    if m.role == MessageRole::Tool {
        if let Some(tool_call_id) = &m.tool_call_id {
            message = message.with("tool_call_id", Json::string(tool_call_id.as_str()));
        }
    }
    message
}

fn make_tool(tool: &ToolDefinition) -> (r: Json)
    ensures
        r@ == tool_json(tool@),
{
    Json::object2(
        "type",
        Json::string("function"),
        "function",
        Json::object3(
            "name",
            Json::string(tool.name.as_str()),
            "description",
            Json::string(tool.description.as_str()),
            "parameters",
            tool.parameters.duplicate(),
        ),
    )
}

fn add_options(base: Json, request: &LLMRequest, model: &str, limit_key: &str) -> (r: Json)
    ensures
        r@ == with_options(base@, request@, model@, limit_key@),
{
    let mut payload = base;
    if let Some(max_tokens) = request.max_tokens {
        payload = payload.with(limit_key, Json::uint(max_tokens as u64));
    }
    if let Some(temperature) = &request.temperature {
        payload = payload.with("temperature", temperature.duplicate());
    }
    if let Some(tools) = &request.tools {
        if tools.len() > 0 {
            let ghost views = tool_definition_views(tools@);
            let mut items: Vec<Json> = Vec::new();
            let mut i: usize = 0;
            while i < tools.len()
                invariant
                    i <= tools.len(),
                    views == tool_definition_views(tools@),
                    items@.len() == i,
                    forall|k: int| 0 <= k < i ==> items@[k]@ == tool_json(views[k]),
                decreases tools.len() - i,
            {
                items.push(make_tool(&tools[i]));
                i += 1;
            }
            assert(json_views(items@) =~= Seq::new(views.len(), |i: int| tool_json(views[i])));
            payload = payload.with("tools", Json::array(items));
        }
    }
    if let Some(tool_choice) = &request.tool_choice {
        payload = payload.with("tool_choice", tool_choice.to_openai_format());
    }
    if let Some(parallel) = request.parallel_tool_calls {
        payload = payload.with("parallel_tool_calls", Json::Bool(parallel));
    }
    if let Some(effort) = &request.reasoning_effort {
        if check_reasoning_model(model) {
            payload = payload.with(
                "reasoning",
                Json::object1("effort", Json::string(effort.as_str())),
            );
        }
    }
    payload
}

/// The model a request is for.
pub fn resolve_model<'a>(provider_model: &'a str, request: &'a LLMRequest) -> (r: &'a str)
    ensures
        r@ == resolved_model(provider_model@, request@),
{
    if str_is_blank(request.model.as_str()) {
        provider_model
    } else {
        request.model.as_str()
    }
}

/// Encodes a request for the chat-completion wire.
pub fn convert_to_openrouter_format(provider_model: &str, request: &LLMRequest) -> (r: Result<
    Json,
    LLMError,
>)
    ensures
        payload_view(r) == chat_payload(provider_model@, request@),
{
    let resolved = resolve_model(provider_model, request);
    let mut messages: Vec<Json> = Vec::new();
    let ghost all = message_views(request.messages@);
    let ghost seed: Seq<JsonV> = match request@.system_prompt {
        Some(prompt) => seq![
            object2("role"@, JsonV::Str("system"@), "content"@, JsonV::Str(prompt)),
        ],
        None => Seq::empty(),
    };
    if let Some(system_prompt) = &request.system_prompt {
        messages.push(
            Json::object2(
                "role",
                Json::string("system"),
                "content",
                Json::string(system_prompt.as_str()),
            ),
        );
    }
    assert(json_views(messages@) =~= seed);
    let mut i: usize = 0;
    while i < request.messages.len()
        invariant
            i <= request.messages.len(),
            all == message_views(request.messages@),
            json_views(messages@) == seed + Seq::new(i as nat, |k: int| chat_message_json(all[k])),
        decreases request.messages.len() - i,
    {
        let ghost before = json_views(messages@);
        messages.push(make_chat_message(&request.messages[i]));
        assert(json_views(messages@) =~= before.push(chat_message_json(all[i as int])));
        assert(seed + Seq::new((i + 1) as nat, |k: int| chat_message_json(all[k])) =~= (seed
            + Seq::new(i as nat, |k: int| chat_message_json(all[k]))).push(
            chat_message_json(all[i as int]),
        ));
        i += 1;
    }
    assert(json_views(messages@) =~= chat_messages_json(request@));
    if messages.len() == 0 {
        return Err(make_invalid_request("No messages provided"));
    }
    let base = Json::object3(
        "model",
        Json::string(resolved),
        "messages",
        Json::array(messages),
        "stream",
        Json::Bool(request.stream),
    );
    Ok(add_options(base, request, resolved, "max_tokens"))
}

fn make_assistant_parts(m: &Message) -> (r: Vec<Json>)
    ensures
        json_views(r@) == assistant_parts(m@),
{
    let mut parts: Vec<Json> = Vec::new();
    if !m.content.as_str().is_empty() {
        parts.push(make_text_part("output_text", m.content.as_str()));
    }
    let ghost text = json_views(parts@);
    assert(text =~= if m@.content.len() > 0 {
        seq![text_part("output_text"@, m@.content)]
    } else {
        Seq::empty()
    });
    if let Some(tool_calls) = &m.tool_calls {
        let ghost calls = tool_call_views(tool_calls@);
        let mut i: usize = 0;
        while i < tool_calls.len()
            invariant
                i <= tool_calls.len(),
                calls == tool_call_views(tool_calls@),
                json_views(parts@) == text + Seq::new(i as nat, |k: int| tool_call_part(calls[k])),
            decreases tool_calls.len() - i,
        {
            let ghost before = json_views(parts@);
            let call = &tool_calls[i];
            let mut fields: Vec<(String, Json)> = Vec::new();
            fields.push(("type".to_owned(), Json::string("tool_call")));
            fields.push(("id".to_owned(), Json::string(call.id.as_str())));
            fields.push(("name".to_owned(), Json::string(call.function.name.as_str())));
            fields.push(("arguments".to_owned(), Json::string(call.function.arguments.as_str())));
            let part = Json::Object(fields);
            assert(part@->Object_0 =~= seq!["type"@, "id"@, "name"@, "arguments"@]);
            assert(part@->Object_1 =~= seq![
                JsonV::Str("tool_call"@),
                JsonV::Str(calls[i as int].id),
                JsonV::Str(calls[i as int].name),
                JsonV::Str(calls[i as int].arguments),
            ]);
            parts.push(part);
            assert(json_views(parts@) =~= before.push(tool_call_part(calls[i as int])));
            assert(text + Seq::new((i + 1) as nat, |k: int| tool_call_part(calls[k])) =~= (text
                + Seq::new(i as nat, |k: int| tool_call_part(calls[k]))).push(
                tool_call_part(calls[i as int]),
            ));
            i += 1;
        }
    }
    parts
}

fn make_tool_result(call_id: &str, content: &str) -> (r: Json)
    ensures
        r@ == tool_result_part(call_id@, content@),
{
    let base = Json::object2(
        "type",
        Json::string("tool_result"),
        "tool_call_id",
        Json::string(call_id),
    );
    if !str_is_blank(content) {
        base.with("content", Json::array(single(make_text_part("output_text", content))))
    } else {
        base
    }
}

fn push_input(input: &mut Vec<Json>, m: &Message, codex: bool) -> (r: Result<(), LLMError>)
    ensures
        match r {
            Ok(_) => input_after(json_views(old(input)@), m@, codex) == Ok::<Seq<JsonV>, LLMErrorV>(
                json_views(final(input)@),
            ),
            Err(e) => input_after(json_views(old(input)@), m@, codex) == Err::<
                Seq<JsonV>,
                LLMErrorV,
            >(e@),
        },
{
    let ghost before = json_views(input@);
    match m.role {
        MessageRole::System => {
            if !codex && !str_is_blank(m.content.as_str()) {
                let entry = make_input_entry(
                    "developer",
                    single(make_text_part("input_text", m.content.as_str())),
                );
                input.push(entry);
                assert(json_views(input@) =~= before.push(entry@));
            }
            Ok(())
        },
        MessageRole::User => {
            let entry = make_input_entry(
                "user",
                single(make_text_part("input_text", m.content.as_str())),
            );
            input.push(entry);
            assert(json_views(input@) =~= before.push(entry@));
            Ok(())
        },
        MessageRole::Assistant => {
            let parts = make_assistant_parts(m);
            if parts.len() > 0 {
                let entry = make_input_entry("assistant", parts);
                input.push(entry);
                assert(json_views(input@) =~= before.push(entry@));
            }
            Ok(())
        },
        MessageRole::Tool => {
            let call_id = match &m.tool_call_id {
                Some(id) => id,
                None => {
                    return Err(
                        make_invalid_request(
                            "Tool messages must include tool_call_id for Responses API",
                        ),
                    );
                },
            };
            let entry = make_input_entry(
                "tool",
                single(make_tool_result(call_id.as_str(), m.content.as_str())),
            );
            input.push(entry);
            assert(json_views(input@) =~= before.push(entry@));
            Ok(())
        },
    }
}

fn push_inputs(input: &mut Vec<Json>, messages: &Vec<Message>, codex: bool) -> (r: Result<
    (),
    LLMError,
>)
    ensures
        match r {
            Ok(_) => input_from(message_views(messages@), 0, json_views(old(input)@), codex)
                == Ok::<Seq<JsonV>, LLMErrorV>(json_views(final(input)@)),
            Err(e) => input_from(message_views(messages@), 0, json_views(old(input)@), codex)
                == Err::<Seq<JsonV>, LLMErrorV>(e@),
        },
{
    let ghost all = message_views(messages@);
    let ghost goal = input_from(all, 0, json_views(input@), codex);
    let mut i: usize = 0;
    while i < messages.len()
        invariant
            i <= messages.len(),
            all == message_views(messages@),
            goal == input_from(all, 0, json_views(old(input)@), codex),
            input_from(all, i as int, json_views(input@), codex) == goal,
        decreases messages.len() - i,
    {
        match push_input(input, &messages[i], codex) {
            Ok(_) => {},
            Err(e) => {
                return Err(e);
            },
        }
        i += 1;
    }
    Ok(())
}

/// Builds the `input` of a request on the response wire.
pub fn build_standard_responses_input(request: &LLMRequest) -> (r: Result<Vec<Json>, LLMError>)
    ensures
        input_view(r) == standard_input(request@),
{
    let mut input: Vec<Json> = Vec::new();
    assert(json_views(input@) =~= Seq::empty());
    if let Some(system_prompt) = &request.system_prompt {
        if !str_is_blank(system_prompt.as_str()) {
            let entry = make_input_entry(
                "developer",
                single(make_text_part("input_text", system_prompt.as_str())),
            );
            input.push(entry);
            assert(json_views(input@) =~= seq![entry@]);
        }
    }
    match push_inputs(&mut input, &request.messages, false) {
        Ok(_) => Ok(input),
        Err(e) => Err(e),
    }
}

/// The developer prompt: the fixed part, then each piece of guidance after
/// an empty line.
pub fn gpt5_codex_developer_prompt(additional_guidance: &Vec<String>) -> (r: String)
    ensures
        r@ == developer_prompt(text_views(additional_guidance@)),
{
    let ghost views = text_views(additional_guidance@);
    let mut out =
        "You are a coding agent that works in the user's terminal. Be precise, safe and helpful.".to_owned();
    let mut i: usize = 0;
    while i < additional_guidance.len()
        invariant
            i <= additional_guidance.len(),
            views == text_views(additional_guidance@),
            developer_prompt_from(views, i as int, out@) == developer_prompt(views),
        decreases additional_guidance.len() - i,
    {
        out.append("\n\n");
        out.append(additional_guidance[i].as_str());
        i += 1;
    }
    out
}

/// Builds the `input` of a request for the model that takes a developer
/// prompt.
pub fn build_codex_responses_input(request: &LLMRequest) -> (r: Result<Vec<Json>, LLMError>)
    ensures
        input_view(r) == codex_input(request@),
{
    let mut additional_guidance: Vec<String> = Vec::new();
    assert(text_views(additional_guidance@) =~= Seq::empty());
    if let Some(system_prompt) = &request.system_prompt {
        if !str_is_blank(system_prompt.as_str()) {
            let trimmed = str_trim(system_prompt.as_str());
            additional_guidance.push(trimmed);
            assert(text_views(additional_guidance@) =~= seq![trim_spec(system_prompt@)]);
        }
    }
    let ghost all = message_views(request.messages@);
    let ghost seed = text_views(additional_guidance@);
    let mut i: usize = 0;
    while i < request.messages.len()
        invariant
            i <= request.messages.len(),
            all == message_views(request.messages@),
            guidance_from(all, i as int, text_views(additional_guidance@)) == guidance_from(
                all,
                0,
                seed,
            ),
        decreases request.messages.len() - i,
    {
        let m = &request.messages[i];
        if m.role == MessageRole::System && !str_is_blank(m.content.as_str()) {
            let ghost before = text_views(additional_guidance@);
            let trimmed = str_trim(m.content.as_str());
            additional_guidance.push(trimmed);
            assert(text_views(additional_guidance@) =~= before.push(trim_spec(all[i as int].content)));
        }
        i += 1;
    }
    let mut input: Vec<Json> = Vec::new();
    assert(json_views(input@) =~= Seq::empty());
    match push_inputs(&mut input, &request.messages, true) {
        Ok(_) => {},
        Err(e) => {
            return Err(e);
        },
    }
    let developer = gpt5_codex_developer_prompt(&additional_guidance);
    let entry = make_input_entry(
        "developer",
        single(make_text_part("input_text", developer.as_str())),
    );
    let ghost rest = json_views(input@);
    input.insert(0, entry);
    assert(json_views(input@) =~= seq![entry@] + rest);
    Ok(input)
}

/// Encodes a request for the response wire.
pub fn convert_to_openrouter_responses_format(provider_model: &str, request: &LLMRequest) -> (r:
    Result<Json, LLMError>)
    ensures
        payload_view(r) == responses_payload(provider_model@, request@),
{
    let resolved = resolve_model(provider_model, request);
    let codex = str_eq(resolved, OPENAI_GPT_5_CODEX);
    let built = if codex {
        build_codex_responses_input(request)
    } else {
        build_standard_responses_input(request)
    };
    let input = match built {
        Ok(input) => input,
        Err(e) => {
            return Err(e);
        },
    };
    if input.len() == 0 {
        return Err(make_invalid_request("No messages provided for Responses API"));
    }
    let base = Json::object3(
        "model",
        Json::string(resolved),
        "input",
        Json::array(input),
        "stream",
        Json::Bool(request.stream),
    );
    let payload = add_options(base, request, resolved, "max_output_tokens");
    if codex {
        Ok(payload.with("reasoning", Json::object1("effort", Json::string("medium"))))
    } else {
        Ok(payload)
    }
}

} // verus!
