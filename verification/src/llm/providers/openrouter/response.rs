//! The parsing of complete responses, in both wire flavours.

use crate::json::{json_text, json_views, Json, JsonV};
use crate::llm::error_display::{format_llm_error, llm_error_text};
use crate::llm::provider::{
    opt_text, opt_tool_call_views, tool_call_views, FinishReason, FinishReasonV, LLMError,
    LLMErrorV, LLMResponse, LLMResponseV, ToolCall, ToolCallV, Usage,
};
use crate::llm::providers::openrouter::decoder::{
    builder_views, chars_views, content_value, extract_reasoning_trace, finalize_tool_calls,
    finalized_calls, finish_reason_of, is_reasoning_type, joined_lines, map_finish_reason,
    parse_usage_value, process_content_value, reasoning_trace, usage_of, walk_of,
    ReasoningBuffer, ReasoningBufferV, StreamDelta, ToolCallBuilder, WalkV,
};
use crate::text::{chars_of, decimal, decimal_spec, str_eq, string_of, trim_chars, trim_spec};
use vstd::prelude::*;

verus! {

/// The error for a response that cannot be used.
pub open spec fn provider_failure(message: Seq<char>) -> LLMErrorV {
    LLMErrorV::Provider(llm_error_text("OpenRouter"@, message))
}

fn make_provider_failure(message: &str) -> (r: LLMError)
    ensures
        r@ == provider_failure(message@),
{
    LLMError::Provider(format_llm_error("OpenRouter", message))
}

/// The texts of the parts from index `i` on, added to `acc`.
pub open spec fn parts_text_from(parts: Seq<JsonV>, i: int, acc: Seq<char>) -> Seq<char>
    decreases parts.len() - i,
{
    if 0 <= i < parts.len() {
        match parts[i].get_str("text"@) {
            Some(t) => parts_text_from(parts, i + 1, acc + t),
            None => parts_text_from(parts, i + 1, acc),
        }
    } else {
        acc
    }
}

/// The answer text of a message: its `content` when that is text, the
/// texts of its parts when it is an array and they are not empty.
pub open spec fn message_content(message: JsonV) -> Option<Seq<char>> {
    match message.get("content"@) {
        Some(JsonV::Str(t)) => Some(t),
        Some(JsonV::Array(parts)) => {
            let text = parts_text_from(parts, 0, Seq::empty());
            if text.len() == 0 {
                None
            } else {
                Some(text)
            }
        },
        _ => None,
    }
}

/// The arguments of a tool call as text: text as it stands, anything else
/// as compact JSON, and `{}` where there are none.
pub open spec fn wire_arguments(value: Option<JsonV>) -> Seq<char> {
    match value {
        None => "{}"@,
        Some(JsonV::Str(s)) => s,
        Some(v) => json_text(v),
    }
}

/// The tool call a wire entry stands for; one without an `id`, a
/// `function` or a name stands for none.
pub open spec fn wire_tool_call(call: JsonV) -> Option<ToolCallV> {
    match call.get_str("id"@) {
        None => None,
        Some(id) => match call.get("function"@) {
            None => None,
            Some(function) => match function.get_str("name"@) {
                None => None,
                Some(name) => Some(
                    ToolCallV { id, name, arguments: wire_arguments(function.get("arguments"@)) },
                ),
            },
        },
    }
}

/// The tool calls of the wire entries from index `i` on, added to `acc`.
pub open spec fn wire_tool_calls_from(calls: Seq<JsonV>, i: int, acc: Seq<ToolCallV>) -> Seq<
    ToolCallV,
>
    decreases calls.len() - i,
{
    if 0 <= i < calls.len() {
        match wire_tool_call(calls[i]) {
            Some(c) => wire_tool_calls_from(calls, i + 1, acc.push(c)),
            None => wire_tool_calls_from(calls, i + 1, acc),
        }
    } else {
        acc
    }
}

/// The tool calls of a message, where it has any.
pub open spec fn message_tool_calls(message: JsonV) -> Option<Seq<ToolCallV>> {
    match message.get("tool_calls"@) {
        Some(JsonV::Array(calls)) => {
            let found = wire_tool_calls_from(calls, 0, Seq::empty());
            if found.len() == 0 {
                None
            } else {
                Some(found)
            }
        },
        _ => None,
    }
}

/// The reasoning segments `acc` after one content part: a part typed as
/// reasoning gives its reasoning trace, or else its trimmed `text`; a text
/// part gives itself, trimmed; blank texts give nothing.
pub open spec fn with_content_reasoning(acc: Seq<Seq<char>>, part: JsonV) -> Seq<Seq<char>> {
    match part {
        JsonV::Object(keys, values) => {
            let ty = match part.get_str("type"@) {
                Some(t) => t,
                None => Seq::empty(),
            };
            if is_reasoning_type(ty) {
                match reasoning_trace(part) {
                    Some(t) => acc.push(t),
                    None => match part.get_str("text"@) {
                        Some(text) => if trim_spec(text).len() > 0 {
                            acc.push(trim_spec(text))
                        } else {
                            acc
                        },
                        None => acc,
                    },
                }
            } else {
                acc
            }
        },
        JsonV::Str(text) => if trim_spec(text).len() > 0 {
            acc.push(trim_spec(text))
        } else {
            acc
        },
        _ => acc,
    }
}

/// The reasoning segments of the content parts from index `i` on, added to
/// `acc`.
pub open spec fn content_reasoning_from(parts: Seq<JsonV>, i: int, acc: Seq<Seq<char>>) -> Seq<
    Seq<char>,
>
    decreases parts.len() - i,
{
    if 0 <= i < parts.len() {
        content_reasoning_from(parts, i + 1, with_content_reasoning(acc, parts[i]))
    } else {
        acc
    }
}

/// The reasoning in the content parts of a message, one segment to a line.
pub open spec fn message_content_reasoning(message: JsonV) -> Option<Seq<char>> {
    match message.get("content"@) {
        Some(JsonV::Array(parts)) => {
            let segments = content_reasoning_from(parts, 0, Seq::empty());
            if segments.len() == 0 {
                None
            } else {
                Some(joined_lines(segments))
            }
        },
        _ => None,
    }
}

/// The reasoning a value under `key` carries.
pub open spec fn member_trace(value: JsonV, key: Seq<char>) -> Option<Seq<char>> {
    match value.get(key) {
        Some(v) => reasoning_trace(v),
        None => None,
    }
}

/// The first of two options that holds something.
pub open spec fn or_else<T>(a: Option<T>, b: Option<T>) -> Option<T> {
    match a {
        Some(_) => a,
        None => b,
    }
}

/// The response a chat-completion choice stands for.
pub open spec fn choice_response(response: JsonV, choice: JsonV, message: JsonV) -> LLMResponseV {
    LLMResponseV {
        content: message_content(message),
        tool_calls: message_tool_calls(message),
        usage: match response.get("usage"@) {
            Some(u) => Some(usage_of(u)),
            None => None,
        },
        finish_reason: match choice.get_str("finish_reason"@) {
            Some(r) => finish_reason_of(r),
            None => FinishReasonV::Stop,
        },
        reasoning: or_else(
            or_else(member_trace(message, "reasoning"@), member_trace(choice, "reasoning"@)),
            message_content_reasoning(message),
        ),
    }
}

/// Whether a content part is a tool call: it is typed as one, or it has no
/// type but a name and arguments.
pub open spec fn is_tool_call_part(part: JsonV) -> bool {
    match part.get_str("type"@) {
        Some(ty) => ty == "tool_call"@ || ty == "function_call"@,
        None => part.has("name"@) && part.has("arguments"@),
    }
}

/// The arguments of a tool call in a content part: text as it stands,
/// `{}` for none and for null, anything else as compact JSON.
pub open spec fn part_arguments(value: Option<JsonV>) -> Seq<char> {
    match value {
        None => "{}"@,
        Some(JsonV::Null) => "{}"@,
        Some(JsonV::Str(s)) => s,
        Some(v) => json_text(v),
    }
}

/// The tool call that the content part at `index` stands for, if it
/// stands for one. Name and arguments are those of its object `function`,
/// or else its own; a missing id becomes `tool_call_<index>`.
pub open spec fn part_tool_call(part: JsonV, index: nat) -> Option<ToolCallV> {
    if !(part is Object) || !is_tool_call_part(part) {
        None
    } else {
        let id = match part.get_str("id"@) {
            Some(id) => id,
            None => "tool_call_"@ + decimal_spec(index),
        };
        let source = match part.get("function"@) {
            Some(JsonV::Object(keys, values)) => JsonV::Object(keys, values),
            _ => part,
        };
        match source.get_str("name"@) {
            None => None,
            Some(name) => Some(
                ToolCallV { id, name, arguments: part_arguments(source.get("arguments"@)) },
            ),
        }
    }
}

/// The tool calls of the content parts from index `i` on, added to `acc`.
pub open spec fn part_tool_calls_from(parts: Seq<JsonV>, i: int, acc: Seq<ToolCallV>) -> Seq<
    ToolCallV,
>
    decreases parts.len() - i,
{
    if 0 <= i < parts.len() {
        match part_tool_call(parts[i], i as nat) {
            Some(c) => part_tool_calls_from(parts, i + 1, acc.push(c)),
            None => part_tool_calls_from(parts, i + 1, acc),
        }
    } else {
        acc
    }
}

/// The tool calls among the content parts of a message, where there are
/// any.
pub open spec fn content_tool_calls(message: JsonV) -> Option<Seq<ToolCallV>> {
    match message.get("content"@) {
        Some(JsonV::Array(parts)) => {
            let found = part_tool_calls_from(parts, 0, Seq::empty());
            if found.len() == 0 {
                None
            } else {
                Some(found)
            }
        },
        _ => None,
    }
}

/// Whether an output entry may be the assistant's: its role says so, or it
/// names no role.
pub open spec fn is_assistant_output(output: JsonV) -> bool {
    match output.get_str("role"@) {
        Some(role) => role == "assistant"@,
        None => true,
    }
}

/// Index of the first output entry at or after `i` that may be the
/// assistant's, or the number of entries when there is none.
pub open spec fn assistant_index_from(outputs: Seq<JsonV>, i: int) -> int
    decreases outputs.len() - i,
{
    if 0 <= i < outputs.len() {
        if is_assistant_output(outputs[i]) {
            i
        } else {
            assistant_index_from(outputs, i + 1)
        }
    } else {
        outputs.len() as int
    }
}

/// The output entry to read: the first that may be the assistant's, or
/// else the first one.
pub open spec fn chosen_output(outputs: Seq<JsonV>) -> JsonV
    recommends
        outputs.len() > 0,
{
    let i = assistant_index_from(outputs, 0);
    if 0 <= i < outputs.len() {
        outputs[i]
    } else {
        outputs[0]
    }
}

/// The word for the end of a response on the response wire: the first
/// member present among `stop_reason`, `finish_reason` and `status` of the
/// payload, `stop_reason` and `finish_reason` of its container, and
/// `stop_reason` and `finish_reason` of the message.
pub open spec fn finish_member(payload: JsonV, container: JsonV, message: JsonV) -> Option<JsonV> {
    or_else(
        payload.get("stop_reason"@),
        or_else(
            payload.get("finish_reason"@),
            or_else(
                payload.get("status"@),
                or_else(
                    container.get("stop_reason"@),
                    or_else(
                        container.get("finish_reason"@),
                        or_else(message.get("stop_reason"@), message.get("finish_reason"@)),
                    ),
                ),
            ),
        ),
    )
}

/// The walk over the content of an output entry, or over the entry itself
/// where it has no `content`.
pub open spec fn output_walk(message: JsonV) -> WalkV {
    let fresh = WalkV {
        content: Seq::empty(),
        reasoning: ReasoningBufferV::empty(),
        builders: Seq::empty(),
        deltas: Seq::empty(),
    };
    match message.get("content"@) {
        Some(c) => content_value(c, fresh),
        None => content_value(message, fresh),
    }
}

/// The response an output entry of the response wire stands for.
pub open spec fn output_response(payload: JsonV, container: JsonV, message: JsonV)
    -> LLMResponseV {
    let w = output_walk(message);
    LLMResponseV {
        content: if w.content.len() == 0 {
            message.get_str("output_text"@)
        } else {
            Some(w.content)
        },
        tool_calls: or_else(finalized_calls(w.builders), content_tool_calls(message)),
        usage: match payload.get("usage"@) {
            Some(u) => Some(usage_of(u)),
            None => match container.get("usage"@) {
                Some(u) => Some(usage_of(u)),
                None => None,
            },
        },
        finish_reason: match finish_member(payload, container, message) {
            Some(JsonV::Str(r)) => finish_reason_of(r),
            _ => FinishReasonV::Stop,
        },
        reasoning: or_else(
            w.reasoning.finalize(),
            or_else(
                message_content_reasoning(message),
                or_else(member_trace(message, "reasoning"@), member_trace(payload, "reasoning"@)),
            ),
        ),
    }
}

/// The response that a payload of the response wire stands for, or the
/// error for a payload without output.
pub open spec fn responses_api_response(payload: JsonV) -> Result<LLMResponseV, LLMErrorV> {
    let container = match payload.get("response"@) {
        Some(c) => c,
        None => payload,
    };
    let outputs = match or_else(container.get("output"@), container.get("outputs"@)) {
        Some(JsonV::Array(items)) => Some(items),
        _ => None,
    };
    match outputs {
        None => Err(provider_failure("Invalid response format: missing output"@)),
        Some(items) => if items.len() == 0 {
            Err(provider_failure("No output in response"@))
        } else {
            Ok(output_response(payload, container, chosen_output(items)))
        },
    }
}

/// The response that a provider's answer stands for: with `choices`, that
/// of its first choice; without, that of the response wire.
pub open spec fn openrouter_response(response: JsonV) -> Result<LLMResponseV, LLMErrorV> {
    match response.get("choices"@) {
        Some(JsonV::Array(choices)) => if choices.len() == 0 {
            Err(provider_failure("No choices in response"@))
        } else {
            match choices[0].get("message"@) {
                None => Err(provider_failure("Invalid response format: missing message"@)),
                Some(message) => Ok(choice_response(response, choices[0], message)),
            }
        },
        _ => responses_api_response(response),
    }
}

/// The model of a parsed response.
pub open spec fn response_view(result: Result<LLMResponse, LLMError>) -> Result<
    LLMResponseV,
    LLMErrorV,
> {
    match result {
        Ok(r) => Ok(r@),
        Err(e) => Err(e@),
    }
}

fn read_message_content(message: &Json) -> (r: Option<String>)
    ensures
        opt_text(r) == message_content(message@),
{
    match message.get("content") {
        Some(Json::Str(text)) => Some(text.clone()),
        Some(Json::Array(parts)) => {
            let content = message.get("content").unwrap();
            let ghost views = content@->Array_0;
            let mut text = String::new();
            let mut i: usize = 0;
            while i < parts.len()
                invariant
                    i <= parts.len(),
                    views == json_views(parts@),
                    parts_text_from(views, i as int, text@) == parts_text_from(
                        views,
                        0,
                        Seq::empty(),
                    ),
                decreases parts.len() - i,
            {
                if let Some(t) = parts[i].get_str("text") {
                    text.append(t);
                }
                i += 1;
            }
            if text.as_str().is_empty() {
                None
            } else {
                Some(text)
            }
        },
        _ => None,
    }
}

fn read_wire_arguments(value: Option<&Json>) -> (r: String)
    ensures
        r@ == wire_arguments(
            match value {
                Some(v) => Some(v@),
                None => None,
            },
        ),
{
    match value {
        None => "{}".to_owned(),
        Some(Json::Str(s)) => s.clone(),
        Some(v) => v.to_text(),
    }
}

/// The tool call a wire entry stands for.
pub fn read_tool_call(call: &Json) -> (r: Option<ToolCall>)
    ensures
        crate::llm::provider::opt_tool_call_view(r) == wire_tool_call(call@),
{
    let id = match call.get_str("id") {
        Some(id) => id,
        None => {
            return None;
        },
    };
    let function = match call.get("function") {
        Some(function) => function,
        None => {
            return None;
        },
    };
    let name = match function.get_str("name") {
        Some(name) => name,
        None => {
            return None;
        },
    };
    let arguments = read_wire_arguments(function.get("arguments"));
    Some(ToolCall::function(id.to_owned(), name.to_owned(), arguments))
}

fn read_message_tool_calls(message: &Json) -> (r: Option<Vec<ToolCall>>)
    ensures
        opt_tool_call_views(r) == message_tool_calls(message@),
{
    let value = match message.get("tool_calls") {
        Some(value) => value,
        None => {
            return None;
        },
    };
    let calls = match value.as_array() {
        Some(calls) => calls,
        None => {
            return None;
        },
    };
    let ghost views = json_views(calls@);
    let mut found: Vec<ToolCall> = Vec::new();
    assert(tool_call_views(found@) =~= Seq::empty());
    let mut i: usize = 0;
    while i < calls.len()
        invariant
            i <= calls.len(),
            views == json_views(calls@),
            wire_tool_calls_from(views, i as int, tool_call_views(found@)) == wire_tool_calls_from(
                views,
                0,
                Seq::empty(),
            ),
        decreases calls.len() - i,
    {
        if let Some(call) = read_tool_call(&calls[i]) {
            let ghost before = tool_call_views(found@);
            found.push(call);
            assert(tool_call_views(found@) =~= before.push(call@));
        }
        i += 1;
    }
    if found.len() == 0 {
        None
    } else {
        Some(found)
    }
}

fn add_content_reasoning(segments: &mut Vec<Vec<char>>, part: &Json)
    ensures
        chars_views(final(segments)@) == with_content_reasoning(
            chars_views(old(segments)@),
            part@,
        ),
{
    let ghost before = chars_views(segments@);
    match part {
        Json::Object(_) => {
            let reasoning_typed = match part.get_str("type") {
                Some(ty) => str_eq(ty, "reasoning") || str_eq(ty, "thinking") || str_eq(
                    ty,
                    "analysis",
                ),
                None => {
                    proof {
                        reveal_strlit("reasoning");
                        reveal_strlit("thinking");
                        reveal_strlit("analysis");
                        assert("reasoning"@.len() == 9);
                        assert("thinking"@.len() == 8);
                        assert("analysis"@.len() == 8);
                    }
                    false
                },
            };
            if reasoning_typed {
                if let Some(extracted) = extract_reasoning_trace(part) {
                    segments.push(chars_of(extracted.as_str()));
                    assert(chars_views(segments@) =~= before.push(extracted@));
                } else if let Some(text) = part.get_str("text") {
                    let chars = chars_of(text);
                    let trimmed = trim_chars(chars.as_slice());
                    if trimmed.len() > 0 {
                        segments.push(trimmed);
                        assert(chars_views(segments@) =~= before.push(trim_spec(text@)));
                    }
                }
            }
        },
        Json::Str(text) => {
            let chars = chars_of(text.as_str());
            let trimmed = trim_chars(chars.as_slice());
            if trimmed.len() > 0 {
                segments.push(trimmed);
                assert(chars_views(segments@) =~= before.push(trim_spec(text@)));
            }
        },
        _ => {},
    }
}

/// The reasoning in the content parts of a message, one segment to a line.
pub fn extract_reasoning_from_message_content(message: &Json) -> (r: Option<String>)
    ensures
        opt_text(r) == message_content_reasoning(message@),
{
    let value = match message.get("content") {
        Some(value) => value,
        None => {
            return None;
        },
    };
    let parts = match value.as_array() {
        Some(parts) => parts,
        None => {
            return None;
        },
    };
    let ghost views = json_views(parts@);
    let mut segments: Vec<Vec<char>> = Vec::new();
    assert(chars_views(segments@) =~= Seq::empty());
    let mut i: usize = 0;
    while i < parts.len()
        invariant
            i <= parts.len(),
            views == json_views(parts@),
            content_reasoning_from(views, i as int, chars_views(segments@))
                == content_reasoning_from(views, 0, Seq::empty()),
        decreases parts.len() - i,
    {
        add_content_reasoning(&mut segments, &parts[i]);
        i += 1;
    }
    if segments.len() == 0 {
        None
    } else {
        let joined = crate::llm::providers::openrouter::decoder::join_segment_lines(&segments);
        Some(string_of(joined.as_slice()))
    }
}

fn read_member_trace(value: &Json, key: &str) -> (r: Option<String>)
    ensures
        opt_text(r) == member_trace(value@, key@),
{
    match value.get(key) {
        Some(v) => extract_reasoning_trace(v),
        None => None,
    }
}

fn read_usage(value: &Json) -> (r: Option<Usage>)
    ensures
        r == match value@.get("usage"@) {
            Some(u) => Some(usage_of(u)),
            None => None,
        },
{
    match value.get("usage") {
        Some(u) => Some(parse_usage_value(u)),
        None => None,
    }
}

fn read_part_tool_call(part: &Json, index: usize) -> (r: Option<ToolCall>)
    ensures
        crate::llm::provider::opt_tool_call_view(r) == part_tool_call(part@, index as nat),
{
    if !part.is_object() {
        return None;
    }
    let is_tool_call = match part.get_str("type") {
        Some(ty) => str_eq(ty, "tool_call") || str_eq(ty, "function_call"),
        None => part.get("name").is_some() && part.get("arguments").is_some(),
    };
    if !is_tool_call {
        return None;
    }
    let id = match part.get_str("id") {
        Some(id) => id.to_owned(),
        None => {
            let mut id = "tool_call_".to_owned();
            id.append(decimal(index as u64).as_str());
            id
        },
    };
    let source: &Json = match part.get("function") {
        Some(function) => if function.is_object() {
            function
        } else {
            part
        },
        None => part,
    };
    let name = match source.get_str("name") {
        Some(name) => name,
        None => {
            return None;
        },
    };
    let arguments = match source.get("arguments") {
        None => "{}".to_owned(),
        Some(Json::Null) => "{}".to_owned(),
        Some(Json::Str(s)) => s.clone(),
        Some(v) => v.to_text(),
    };
    Some(ToolCall::function(id, name.to_owned(), arguments))
}

/// The tool calls among the content parts of a message.
pub fn extract_tool_calls_from_content(message: &Json) -> (r: Option<Vec<ToolCall>>)
    ensures
        opt_tool_call_views(r) == content_tool_calls(message@),
{
    let value = match message.get("content") {
        Some(value) => value,
        None => {
            return None;
        },
    };
    let parts = match value.as_array() {
        Some(parts) => parts,
        None => {
            return None;
        },
    };
    let ghost views = json_views(parts@);
    let mut calls: Vec<ToolCall> = Vec::new();
    assert(tool_call_views(calls@) =~= Seq::empty());
    let mut i: usize = 0;
    while i < parts.len()
        invariant
            i <= parts.len(),
            views == json_views(parts@),
            part_tool_calls_from(views, i as int, tool_call_views(calls@)) == part_tool_calls_from(
                views,
                0,
                Seq::empty(),
            ),
        decreases parts.len() - i,
    {
        if let Some(call) = read_part_tool_call(&parts[i], i) {
            let ghost before = tool_call_views(calls@);
            calls.push(call);
            assert(tool_call_views(calls@) =~= before.push(call@));
        }
        i += 1;
    }
    if calls.len() == 0 {
        None
    } else {
        Some(calls)
    }
}

fn first_present<'a>(a: Option<&'a Json>, b: Option<&'a Json>) -> (r: Option<&'a Json>)
    ensures
        crate::llm::provider::opt_json_ref_view(r) == or_else(
            crate::llm::provider::opt_json_ref_view(a),
            crate::llm::provider::opt_json_ref_view(b),
        ),
{
    match a {
        Some(_) => a,
        None => b,
    }
}

fn first_text(a: Option<String>, b: Option<String>) -> (r: Option<String>)
    ensures
        opt_text(r) == or_else(opt_text(a), opt_text(b)),
{
    match a {
        Some(_) => a,
        None => b,
    }
}

fn read_output_response(payload: &Json, container: &Json, message: &Json) -> (r: LLMResponse)
    ensures
        r@ == output_response(payload@, container@, message@),
{
    let mut aggregated_content = String::new();
    let mut reasoning_buffer = ReasoningBuffer::new();
    let mut tool_call_builders: Vec<ToolCallBuilder> = Vec::new();
    let mut deltas = StreamDelta::new();
    assert(builder_views(tool_call_builders@) =~= Seq::empty());
    if let Some(content_value) = message.get("content") {
        process_content_value(
            content_value,
            &mut aggregated_content,
            &mut reasoning_buffer,
            &mut tool_call_builders,
            &mut deltas,
        );
    } else {
        process_content_value(
            message,
            &mut aggregated_content,
            &mut reasoning_buffer,
            &mut tool_call_builders,
            &mut deltas,
        );
    }
    assert(walk_of(aggregated_content, reasoning_buffer, tool_call_builders, deltas)
        == output_walk(message@));
    let mut tool_calls = finalize_tool_calls(tool_call_builders);
    if tool_calls.is_none() {
        tool_calls = extract_tool_calls_from_content(message);
    }
    let mut reasoning = reasoning_buffer.finalize();
    if reasoning.is_none() {
        reasoning = first_text(
            extract_reasoning_from_message_content(message),
            first_text(
                read_member_trace(message, "reasoning"),
                read_member_trace(payload, "reasoning"),
            ),
        );
    }
    let content = if aggregated_content.as_str().is_empty() {
        match message.get_str("output_text") {
            Some(text) => Some(text.to_owned()),
            None => None,
        }
    } else {
        Some(aggregated_content)
    };
    let mut usage = read_usage(payload);
    if usage.is_none() {
        usage = read_usage(container);
    }
    let finish = first_present(
        payload.get("stop_reason"),
        first_present(
            payload.get("finish_reason"),
            first_present(
                payload.get("status"),
                first_present(
                    container.get("stop_reason"),
                    first_present(
                        container.get("finish_reason"),
                        first_present(message.get("stop_reason"), message.get("finish_reason")),
                    ),
                ),
            ),
        ),
    );
    let finish_reason = match finish {
        Some(Json::Str(reason)) => map_finish_reason(reason.as_str()),
        _ => FinishReason::Stop,
    };
    LLMResponse { content, tool_calls, usage, finish_reason, reasoning }
}

/// Reads a payload of the response wire.
pub fn parse_responses_api_response(payload: &Json) -> (r: Result<LLMResponse, LLMError>)
    ensures
        response_view(r) == responses_api_response(payload@),
{
    let container = match payload.get("response") {
        Some(c) => c,
        None => payload,
    };
    let listed = first_present(container.get("output"), container.get("outputs"));
    let outputs = match listed {
        Some(value) => match value.as_array() {
            Some(items) => items,
            None => {
                return Err(make_provider_failure("Invalid response format: missing output"));
            },
        },
        None => {
            return Err(make_provider_failure("Invalid response format: missing output"));
        },
    };
    if outputs.len() == 0 {
        return Err(make_provider_failure("No output in response"));
    }
    let ghost views = json_views(outputs@);
    let mut i: usize = 0;
    let mut chosen: usize = 0;
    let mut found = false;
    while i < outputs.len()
        invariant_except_break
            !found,
            chosen == 0,
            assistant_index_from(views, i as int) == assistant_index_from(views, 0),
        invariant
            i <= outputs.len(),
            views == json_views(outputs@),
        ensures
            found ==> chosen == assistant_index_from(views, 0) && chosen < outputs.len(),
            !found ==> assistant_index_from(views, 0) == views.len() && chosen == 0,
        decreases outputs.len() - i,
    {
        let is_assistant = match outputs[i].get_str("role") {
            Some(role) => str_eq(role, "assistant"),
            None => true,
        };
        if is_assistant {
            chosen = i;
            found = true;
            break ;
        }
        i += 1;
    }
    Ok(read_output_response(payload, container, &outputs[chosen]))
}

/// Reads a provider's answer.
pub fn parse_openrouter_response(response_json: &Json) -> (r: Result<LLMResponse, LLMError>)
    ensures
        response_view(r) == openrouter_response(response_json@),
{
    let choices = match response_json.get("choices") {
        Some(value) => match value.as_array() {
            Some(choices) => choices,
            None => {
                return parse_responses_api_response(response_json);
            },
        },
        None => {
            return parse_responses_api_response(response_json);
        },
    };
    if choices.len() == 0 {
        return Err(make_provider_failure("No choices in response"));
    }
    let choice = &choices[0];
    let message = match choice.get("message") {
        Some(message) => message,
        None => {
            return Err(make_provider_failure("Invalid response format: missing message"));
        },
    };
    let content = read_message_content(message);
    let tool_calls = read_message_tool_calls(message);
    let reasoning = first_text(
        first_text(read_member_trace(message, "reasoning"), read_member_trace(choice, "reasoning")),
        extract_reasoning_from_message_content(message),
    );
    let finish_reason = match choice.get_str("finish_reason") {
        Some(reason) => map_finish_reason(reason),
        None => FinishReason::Stop,
    };
    let usage = read_usage(response_json);
    Ok(LLMResponse { content, tool_calls, usage, finish_reason, reasoning })
}

} // verus!
