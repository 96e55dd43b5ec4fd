//! The bridge to an editor client: sessions, the tool-call lifecycle, the
//! resolution of prompts, and the decisions of a turn. Whatever waits for
//! the client or the provider happens outside; this module decides what to
//! send and what to do with each answer.

use crate::config::constants::{MAX_TOOL_RESPONSE_CHARS, TOOL_READ_FILE};
use crate::json::{json_text, object1, object2, object3, parsed_json, Json, JsonV};
use crate::llm::provider::{
    duplicate_messages, duplicate_tool_definitions, message_views, opt_text,
    tool_definition_views, FinishReason, FinishReasonV, LLMRequest, LLMRequestV, LLMResponse,
    LLMResponseV, LLMStreamEvent, LLMStreamEventV, Message, MessageRole, MessageV, ToolCall,
    ToolCallV, ToolChoice, ToolChoiceV, ToolDefinition, ToolDefinitionV,
};
use crate::text::{
    chars_of, concat, decimal, decimal_spec, is_blank, slice_chars, str_eq, str_is_blank,
    string_of, text_views,
};
use crate::uri::{parsed_url, percent_decoded, UrlParts, UrlPartsV};
use vstd::prelude::*;

verus! {

pub const SESSION_PREFIX: &'static str = "vtcode-zed-session";

pub const RESOURCE_FALLBACK_LABEL: &'static str = "Resource";

pub const RESOURCE_FAILURE_LABEL: &'static str = "Resource unavailable";

pub const TOOL_READ_FILE_DESCRIPTION: &'static str =
    "Read the contents of a text file accessible to the Zed workspace";

pub const TOOL_READ_FILE_URI_ARG: &'static str = "uri";

pub const TOOL_READ_FILE_PATH_ARG: &'static str = "path";

pub const TOOL_READ_FILE_LINE_ARG: &'static str = "line";

pub const TOOL_READ_FILE_LIMIT_ARG: &'static str = "limit";

pub const TOOL_FAILURE_PREFIX: &'static str = "Tool execution failed";

pub const TOOL_PERMISSION_ALLOW_OPTION_ID: &'static str = "allow-once";

pub const TOOL_PERMISSION_DENY_OPTION_ID: &'static str = "reject-once";

pub const TOOL_PERMISSION_DENIED_MESSAGE: &'static str =
    "Tool execution cancelled: permission denied by the user";

pub const TOOL_PERMISSION_CANCELLED_MESSAGE: &'static str =
    "Tool execution cancelled: permission request interrupted";

/// What kind of work a tool does, as the client is told.
#[derive(Clone, Copy, Debug, PartialEq, Eq, Structural)]
pub enum ToolKind {
    Fetch,
    Other,
}

/// Where a tool call stands.
#[derive(Clone, Copy, Debug, PartialEq, Eq, Structural)]
pub enum ToolCallStatus {
    Pending,
    InProgress,
    Completed,
    Failed,
}

/// Why a turn ended.
#[derive(Clone, Copy, Debug, PartialEq, Eq, Structural)]
pub enum StopReason {
    EndTurn,
    MaxTokens,
    Refusal,
    Cancelled,
}

/// The tools the bridge can run.
#[derive(Clone, Copy, Debug, PartialEq, Eq, Structural)]
pub enum SupportedTool {
    ReadFile,
}

impl SupportedTool {
    pub fn kind(&self) -> (r: ToolKind)
        ensures
            r == ToolKind::Fetch,
    {
        match self {
            SupportedTool::ReadFile => ToolKind::Fetch,
        }
    }

    pub fn default_title(&self) -> (r: &'static str)
        ensures
            r@ == "Read file"@,
    {
        match self {
            SupportedTool::ReadFile => "Read file",
        }
    }

    pub fn function_name(&self) -> (r: &'static str)
        ensures
            r@ == TOOL_READ_FILE@,
    {
        match self {
            SupportedTool::ReadFile => TOOL_READ_FILE,
        }
    }
}

/// A property of a schema: its type and what it is for.
pub open spec fn schema_property(ty: Seq<char>, description: Seq<char>) -> JsonV {
    object2("type"@, JsonV::Str(ty), "description"@, JsonV::Str(description))
}

/// A whole-number property of a schema that starts at one.
pub open spec fn schema_count(description: Seq<char>) -> JsonV {
    object3(
        "type"@,
        JsonV::Str("integer"@),
        "minimum"@,
        JsonV::PosInt(1),
        "description"@,
        JsonV::Str(description),
    )
}

/// The schema of the arguments of `read_file`: a path or a URI, and
/// where to start and how much to read.
pub open spec fn read_file_schema() -> JsonV {
    JsonV::Object(
        seq!["type"@, "properties"@, "additionalProperties"@, "anyOf"@],
        seq![
            JsonV::Str("object"@),
            JsonV::Object(
                seq![
                    TOOL_READ_FILE_PATH_ARG@,
                    TOOL_READ_FILE_URI_ARG@,
                    TOOL_READ_FILE_LINE_ARG@,
                    TOOL_READ_FILE_LIMIT_ARG@,
                ],
                seq![
                    schema_property("string"@, "Absolute path to the file within the workspace"@),
                    schema_property(
                        "string"@,
                        "File URI using file://, zed://, or zed-fs:// schemes"@,
                    ),
                    schema_count("1-based line number to start reading from"@),
                    schema_count("Maximum number of lines to read"@),
                ],
            ),
            JsonV::Bool(false),
            JsonV::Array(
                seq![
                    object1("required"@, JsonV::Array(seq![JsonV::Str(TOOL_READ_FILE_PATH_ARG@)])),
                    object1("required"@, JsonV::Array(seq![JsonV::Str(TOOL_READ_FILE_URI_ARG@)])),
                ],
            ),
        ],
    )
}

/// The definition of `read_file`.
pub open spec fn read_file_definition() -> ToolDefinitionV {
    ToolDefinitionV {
        name: TOOL_READ_FILE@,
        description: TOOL_READ_FILE_DESCRIPTION@,
        parameters: read_file_schema(),
    }
}

fn make_schema_property(ty: &str, description: &str) -> (r: Json)
    ensures
        r@ == schema_property(ty@, description@),
{
    Json::object2("type", Json::string(ty), "description", Json::string(description))
}

fn make_schema_count(description: &str) -> (r: Json)
    ensures
        r@ == schema_count(description@),
{
    Json::object3(
        "type",
        Json::string("integer"),
        "minimum",
        Json::uint(1),
        "description",
        Json::string(description),
    )
}

fn make_required(name: &str) -> (r: Json)
    ensures
        r@ == object1("required"@, JsonV::Array(seq![JsonV::Str(name@)])),
{
    let mut names: Vec<Json> = Vec::new();
    names.push(Json::string(name));
    let list = Json::Array(names);
    assert(list@->Array_0 =~= seq![JsonV::Str(name@)]);
    Json::object1("required", list)
}

fn make_read_file_schema() -> (r: Json)
    ensures
        r@ == read_file_schema(),
{
    let mut properties: Vec<(String, Json)> = Vec::new();
    properties.push(
        (
            TOOL_READ_FILE_PATH_ARG.to_owned(),
            make_schema_property("string", "Absolute path to the file within the workspace"),
        ),
    );
    properties.push(
        (
            TOOL_READ_FILE_URI_ARG.to_owned(),
            make_schema_property("string", "File URI using file://, zed://, or zed-fs:// schemes"),
        ),
    );
    properties.push(
        (
            TOOL_READ_FILE_LINE_ARG.to_owned(),
            make_schema_count("1-based line number to start reading from"),
        ),
    );
    properties.push(
        (TOOL_READ_FILE_LIMIT_ARG.to_owned(), make_schema_count("Maximum number of lines to read")),
    );
    let properties = Json::Object(properties);
    assert(properties@->Object_0 =~= seq![
        TOOL_READ_FILE_PATH_ARG@,
        TOOL_READ_FILE_URI_ARG@,
        TOOL_READ_FILE_LINE_ARG@,
        TOOL_READ_FILE_LIMIT_ARG@,
    ]);
    assert(properties@->Object_1 =~= seq![
        schema_property("string"@, "Absolute path to the file within the workspace"@),
        schema_property("string"@, "File URI using file://, zed://, or zed-fs:// schemes"@),
        schema_count("1-based line number to start reading from"@),
        schema_count("Maximum number of lines to read"@),
    ]);
    let mut any_of: Vec<Json> = Vec::new();
    any_of.push(make_required(TOOL_READ_FILE_PATH_ARG));
    any_of.push(make_required(TOOL_READ_FILE_URI_ARG));
    let any_of = Json::Array(any_of);
    assert(any_of@->Array_0 =~= seq![
        object1("required"@, JsonV::Array(seq![JsonV::Str(TOOL_READ_FILE_PATH_ARG@)])),
        object1("required"@, JsonV::Array(seq![JsonV::Str(TOOL_READ_FILE_URI_ARG@)])),
    ]);
    let mut fields: Vec<(String, Json)> = Vec::new();
    fields.push(("type".to_owned(), Json::string("object")));
    fields.push(("properties".to_owned(), properties));
    let closed = Json::Bool(false);
    assert(closed@ == JsonV::Bool(false));
    fields.push(("additionalProperties".to_owned(), closed));
    fields.push(("anyOf".to_owned(), any_of));
    let schema = Json::Object(fields);
    assert(schema@->Object_0 =~= seq!["type"@, "properties"@, "additionalProperties"@, "anyOf"@]);
    assert(schema@->Object_1 =~= seq![
        JsonV::Str("object"@),
        properties@,
        JsonV::Bool(false),
        any_of@,
    ]);
    schema
}

/// Model of a [`ToolRegistry`]: the definitions, and the names that map to
/// a tool, with the tool of each.
pub struct ToolRegistryV {
    pub definitions: Seq<ToolDefinitionV>,
    pub names: Seq<Seq<char>>,
    pub tools: Seq<SupportedTool>,
}

impl ToolRegistryV {
    /// The registry with `read_file` in it, or the empty one.
    pub open spec fn with_read_file(read_file_enabled: bool) -> ToolRegistryV {
        if read_file_enabled {
            ToolRegistryV {
                definitions: seq![read_file_definition()],
                names: seq![TOOL_READ_FILE@],
                tools: seq![SupportedTool::ReadFile],
            }
        } else {
            ToolRegistryV { definitions: Seq::empty(), names: Seq::empty(), tools: Seq::empty() }
        }
    }

    /// The tool of a name, if it has one.
    pub open spec fn lookup(self, name: Seq<char>) -> Option<SupportedTool> {
        let i = crate::json::key_index_from(self.names, name, 0);
        if 0 <= i < self.names.len() && i < self.tools.len() {
            Some(self.tools[i])
        } else {
            None
        }
    }
}

/// The first of two argument texts that is there and not empty.
pub open spec fn first_text_arg(args: JsonV, key: Seq<char>) -> Option<Seq<char>> {
    match args.get_str(key) {
        Some(t) => if t.len() > 0 {
            Some(t)
        } else {
            None
        },
        None => None,
    }
}

/// The title of a call of `read_file`: the file it reads, by path or else
/// by URI, where the arguments name one.
pub open spec fn read_file_title(args: JsonV) -> Seq<char> {
    match first_text_arg(args, TOOL_READ_FILE_PATH_ARG@) {
        Some(path) => "Read file "@ + path,
        None => match first_text_arg(args, TOOL_READ_FILE_URI_ARG@) {
            Some(uri) => "Read file "@ + uri,
            None => "Read file"@,
        },
    }
}

/// The tools of the bridge: their definitions for the model, and which
/// tool stands behind which name.
#[derive(Debug)]
pub struct ToolRegistry {
    pub definitions: Vec<ToolDefinition>,
    pub mapping: Vec<(String, SupportedTool)>,
}

impl View for ToolRegistry {
    type V = ToolRegistryV;

    open spec fn view(&self) -> ToolRegistryV {
        ToolRegistryV {
            definitions: tool_definition_views(self.definitions@),
            names: Seq::new(self.mapping@.len(), |i: int| self.mapping@[i].0@),
            tools: Seq::new(self.mapping@.len(), |i: int| self.mapping@[i].1),
        }
    }
}

fn text_arg<'a>(args: &'a Json, key: &str) -> (r: Option<&'a str>)
    ensures
        match r {
            Some(t) => first_text_arg(args@, key@) == Some(t@),
            None => first_text_arg(args@, key@) is None,
        },
{
    match args.get_str(key) {
        Some(t) => if t.is_empty() {
            None
        } else {
            Some(t)
        },
        None => None,
    }
}

impl ToolRegistry {
    /// The registry with `read_file` in it where that is enabled.
    pub fn new(read_file_enabled: bool) -> (r: ToolRegistry)
        ensures
            r@ == ToolRegistryV::with_read_file(read_file_enabled),
    {
        let mut definitions: Vec<ToolDefinition> = Vec::new();
        let mut mapping: Vec<(String, SupportedTool)> = Vec::new();
        if read_file_enabled {
            let read_file = ToolDefinition::function(
                TOOL_READ_FILE.to_owned(),
                TOOL_READ_FILE_DESCRIPTION.to_owned(),
                make_read_file_schema(),
            );
            mapping.push((read_file.function_name().to_owned(), SupportedTool::ReadFile));
            definitions.push(read_file);
        }
        let r = ToolRegistry { definitions, mapping };
        assert(r@.definitions =~= ToolRegistryV::with_read_file(read_file_enabled).definitions);
        assert(r@.names =~= ToolRegistryV::with_read_file(read_file_enabled).names);
        assert(r@.tools =~= ToolRegistryV::with_read_file(read_file_enabled).tools);
        r
    }

    pub fn is_empty(&self) -> (r: bool)
        ensures
            r == (self@.definitions.len() == 0),
    {
        self.definitions.len() == 0
    }

    /// The definitions, for the model.
    pub fn definitions(&self) -> (r: Vec<ToolDefinition>)
        ensures
            tool_definition_views(r@) == self@.definitions,
    {
        duplicate_tool_definitions(&self.definitions)
    }

    /// The tool behind a name.
    pub fn lookup(&self, name: &str) -> (r: Option<SupportedTool>)
        ensures
            r == self@.lookup(name@),
    {
        let ghost names = self@.names;
        let mut i: usize = 0;
        while i < self.mapping.len()
            invariant
                i <= self.mapping.len(),
                names == self@.names,
                crate::json::key_index_from(names, name@, i as int) == crate::json::key_index_from(
                    names,
                    name@,
                    0,
                ),
            decreases self.mapping.len() - i,
        {
            if str_eq(self.mapping[i].0.as_str(), name) {
                return Some(self.mapping[i].1);
            }
            i += 1;
        }
        None
    }

    /// The title of a call, for the client.
    pub fn render_title(&self, tool: SupportedTool, args: &Json) -> (r: String)
        ensures
            r@ == read_file_title(args@),
    {
        match tool {
            SupportedTool::ReadFile => {
                if let Some(path) = text_arg(args, TOOL_READ_FILE_PATH_ARG) {
                    concat("Read file ", path)
                } else if let Some(uri) = text_arg(args, TOOL_READ_FILE_URI_ARG) {
                    concat("Read file ", uri)
                } else {
                    tool.default_title().to_owned()
                }
            },
        }
    }
}

/// The envelope of a failed tool call.
pub open spec fn failure_envelope(tool: Seq<char>, message: Seq<char>) -> JsonV {
    object3(
        "status"@,
        JsonV::Str("error"@),
        "tool"@,
        JsonV::Str(tool),
        "message"@,
        JsonV::Str(message),
    )
}

/// The envelope of a successful `read_file`.
pub open spec fn success_envelope(path: Seq<char>, content: Seq<char>, truncated: bool) -> JsonV {
    JsonV::Object(
        seq!["status"@, "tool"@, "path"@, "content"@, "truncated"@],
        seq![
            JsonV::Str("success"@),
            JsonV::Str(TOOL_READ_FILE@),
            JsonV::Str(path),
            JsonV::Str(content),
            JsonV::Bool(truncated),
        ],
    )
}

/// Model of a [`ToolExecutionReport`].
pub struct ToolExecutionReportV {
    pub status: ToolCallStatus,
    pub llm_response: Seq<char>,
    pub content: Seq<Seq<char>>,
    pub raw_output: Option<JsonV>,
}

impl ToolExecutionReportV {
    /// The report of a call that succeeded with `payload`.
    pub open spec fn success(content: Seq<Seq<char>>, payload: JsonV) -> ToolExecutionReportV {
        ToolExecutionReportV {
            status: ToolCallStatus::Completed,
            llm_response: json_text(payload),
            content,
            raw_output: Some(payload),
        }
    }

    /// The report of a call that failed with `message`.
    pub open spec fn failure(tool: Seq<char>, message: Seq<char>) -> ToolExecutionReportV {
        ToolExecutionReportV {
            status: ToolCallStatus::Failed,
            llm_response: json_text(failure_envelope(tool, message)),
            content: seq![TOOL_FAILURE_PREFIX@ + ": "@ + message],
            raw_output: Some(failure_envelope(tool, message)),
        }
    }
}

/// How a tool call ended: its status, what goes back to the model, what
/// the client shows, and the raw envelope.
#[derive(Debug)]
pub struct ToolExecutionReport {
    pub status: ToolCallStatus,
    pub llm_response: String,
    pub content: Vec<String>,
    pub raw_output: Option<Json>,
}

impl View for ToolExecutionReport {
    type V = ToolExecutionReportV;

    open spec fn view(&self) -> ToolExecutionReportV {
        ToolExecutionReportV {
            status: self.status,
            llm_response: self.llm_response@,
            content: text_views(self.content@),
            raw_output: crate::llm::provider::opt_json_view(self.raw_output),
        }
    }
}

impl ToolExecutionReport {
    /// The report of a call that succeeded with `payload`.
    pub fn success(content: Vec<String>, payload: Json) -> (r: ToolExecutionReport)
        ensures
            r@ == ToolExecutionReportV::success(text_views(content@), payload@),
    {
        ToolExecutionReport {
            status: ToolCallStatus::Completed,
            llm_response: payload.to_text(),
            content,
            raw_output: Some(payload),
        }
    }

    /// The report of a call that failed with `message`.
    pub fn failure(tool_name: &str, message: &str) -> (r: ToolExecutionReport)
        ensures
            r@ == ToolExecutionReportV::failure(tool_name@, message@),
    {
        let payload = Json::object3(
            "status",
            Json::string("error"),
            "tool",
            Json::string(tool_name),
            "message",
            Json::string(message),
        );
        let mut shown = TOOL_FAILURE_PREFIX.to_owned();
        shown.append(": ");
        shown.append(message);
        let mut content: Vec<String> = Vec::new();
        content.push(shown);
        assert(text_views(content@) =~= seq![TOOL_FAILURE_PREFIX@ + ": "@ + message@]);
        ToolExecutionReport {
            status: ToolCallStatus::Failed,
            llm_response: payload.to_text(),
            content,
            raw_output: Some(payload),
        }
    }
}

/// The first characters of a text up to the most that go back to the
/// model, and whether anything was cut.
pub open spec fn truncated_text(input: Seq<char>) -> (Seq<char>, bool) {
    if input.len() <= MAX_TOOL_RESPONSE_CHARS {
        (input, false)
    } else {
        (input.subrange(0, MAX_TOOL_RESPONSE_CHARS as int), true)
    }
}

/// Cuts a text to the most characters that go back to the model.
pub fn truncate_text(input: &str) -> (r: (String, bool))
    ensures
        (r.0@, r.1) == truncated_text(input@),
{
    let chars = chars_of(input);
    if chars.len() <= MAX_TOOL_RESPONSE_CHARS {
        (input.to_owned(), false)
    } else {
        let kept = slice_chars(chars.as_slice(), 0, MAX_TOOL_RESPONSE_CHARS);
        (string_of(kept.as_slice()), true)
    }
}

/// How a permission option counts.
#[derive(Clone, Copy, Debug, PartialEq, Eq, Structural)]
pub enum PermissionOptionKind {
    AllowOnce,
    RejectOnce,
}

/// Model of a [`PermissionOption`].
pub struct PermissionOptionV {
    pub id: Seq<char>,
    pub name: Seq<char>,
    pub kind: PermissionOptionKind,
}

/// A choice offered to the user.
#[derive(Debug)]
pub struct PermissionOption {
    pub id: String,
    pub name: String,
    pub kind: PermissionOptionKind,
}

impl View for PermissionOption {
    type V = PermissionOptionV;

    open spec fn view(&self) -> PermissionOptionV {
        PermissionOptionV { id: self.id@, name: self.name@, kind: self.kind }
    }
}

/// The two choices offered for an action: to allow it once, and to deny
/// it once.
pub open spec fn permission_choices(action: Seq<char>) -> Seq<PermissionOptionV> {
    seq![
        PermissionOptionV {
            id: TOOL_PERMISSION_ALLOW_OPTION_ID@,
            name: "Allow "@ + action,
            kind: PermissionOptionKind::AllowOnce,
        },
        PermissionOptionV {
            id: TOOL_PERMISSION_DENY_OPTION_ID@,
            name: "Deny "@ + action,
            kind: PermissionOptionKind::RejectOnce,
        },
    ]
}

/// The models of a sequence of permission options.
pub open spec fn option_views(options: Seq<PermissionOption>) -> Seq<PermissionOptionV> {
    Seq::new(options.len(), |i: int| options[i]@)
}

/// The choices offered for a call of a tool.
pub fn permission_options(registry: &ToolRegistry, tool: SupportedTool, args: Option<&Json>) -> (r:
    Vec<PermissionOption>)
    ensures
        option_views(r@) == permission_choices(
            match args {
                Some(a) => read_file_title(a@),
                None => "Read file"@,
            },
        ),
{
    let action_label = match args {
        Some(args) => registry.render_title(tool, args),
        None => tool.default_title().to_owned(),
    };
    let allow = PermissionOption {
        id: TOOL_PERMISSION_ALLOW_OPTION_ID.to_owned(),
        name: concat("Allow ", action_label.as_str()),
        kind: PermissionOptionKind::AllowOnce,
    };
    let deny = PermissionOption {
        id: TOOL_PERMISSION_DENY_OPTION_ID.to_owned(),
        name: concat("Deny ", action_label.as_str()),
        kind: PermissionOptionKind::RejectOnce,
    };
    let mut options: Vec<PermissionOption> = Vec::new();
    options.push(allow);
    options.push(deny);
    assert(option_views(options@) =~= permission_choices(action_label@));
    options
}

/// Model of a [`PermissionOutcome`].
pub enum PermissionOutcomeV {
    Cancelled,
    Selected(Seq<char>),
    Unreachable,
}

/// How a request for permission ended: the user dismissed it, the user
/// picked an option, or the request never reached the client.
#[derive(Debug)]
pub enum PermissionOutcome {
    Cancelled,
    Selected(String),
    Unreachable,
}

impl View for PermissionOutcome {
    type V = PermissionOutcomeV;

    open spec fn view(&self) -> PermissionOutcomeV {
        match self {
            PermissionOutcome::Cancelled => PermissionOutcomeV::Cancelled,
            PermissionOutcome::Selected(id) => PermissionOutcomeV::Selected(id@),
            PermissionOutcome::Unreachable => PermissionOutcomeV::Unreachable,
        }
    }
}

/// What a permission outcome means for the call: nothing stands in its
/// way where the user allowed it or the request never reached the client;
/// a dismissed request cancels it; a denial, and any option that is not
/// known, denies it.
pub open spec fn permission_verdict(tool: Seq<char>, outcome: PermissionOutcomeV) -> Option<
    ToolExecutionReportV,
> {
    match outcome {
        PermissionOutcomeV::Cancelled => Some(
            ToolExecutionReportV::failure(tool, TOOL_PERMISSION_CANCELLED_MESSAGE@),
        ),
        PermissionOutcomeV::Selected(id) => if id == TOOL_PERMISSION_ALLOW_OPTION_ID@ {
            None
        } else {
            Some(ToolExecutionReportV::failure(tool, TOOL_PERMISSION_DENIED_MESSAGE@))
        },
        PermissionOutcomeV::Unreachable => None,
    }
}

/// The model of an optional report.
pub open spec fn opt_report_view(report: Option<ToolExecutionReport>) -> Option<
    ToolExecutionReportV,
> {
    match report {
        Some(r) => Some(r@),
        None => None,
    }
}

/// Decides what a permission outcome means for a call.
pub fn permission_report(tool: SupportedTool, outcome: &PermissionOutcome) -> (r: Option<
    ToolExecutionReport,
>)
    ensures
        opt_report_view(r) == permission_verdict(TOOL_READ_FILE@, outcome@),
{
    match outcome {
        PermissionOutcome::Cancelled => Some(
            ToolExecutionReport::failure(tool.function_name(), TOOL_PERMISSION_CANCELLED_MESSAGE),
        ),
        PermissionOutcome::Selected(option_id) => {
            if str_eq(option_id.as_str(), TOOL_PERMISSION_ALLOW_OPTION_ID) {
                None
            } else {
                Some(
                    ToolExecutionReport::failure(
                        tool.function_name(),
                        TOOL_PERMISSION_DENIED_MESSAGE,
                    ),
                )
            }
        },
        PermissionOutcome::Unreachable => None,
    }
}

/// The file a resource URI names, given what parsing it yielded and what
/// the platform makes of it as a `file` URL: a URI that begins with a
/// slash is the path itself; a `file` URL is what the platform makes of
/// it; a `zed` or `zed-fs` URL is its percent-decoded path; anything else
/// names no file.
pub open spec fn resource_path(
    uri: Seq<char>,
    parsed: Result<UrlPartsV, Seq<char>>,
    file_path: Option<Seq<char>>,
) -> Option<Seq<char>> {
    if uri.len() == 0 {
        None
    } else if uri[0] == '/' {
        Some(uri)
    } else {
        match parsed {
            Err(_) => None,
            Ok(parts) => if parts.scheme == "file"@ {
                file_path
            } else if parts.scheme == "zed"@ || parts.scheme == "zed-fs"@ {
                if parts.path.len() == 0 {
                    None
                } else {
                    percent_decoded(parts.path)
                }
            } else {
                None
            },
        }
    }
}

/// Resolves a resource URI, given what parsing it yielded and what the
/// platform makes of it as a `file` URL.
pub fn resource_path_from(uri: &str, parsed: &Result<UrlParts, String>, file_path: Option<String>)
    -> (r: Option<String>)
    ensures
        opt_text(r) == resource_path(
            uri@,
            crate::tools::registry::policy::parsed_view(*parsed),
            opt_text(file_path),
        ),
{
    let chars = chars_of(uri);
    if chars.len() == 0 {
        return None;
    }
    if chars[0] == '/' {
        return Some(uri.to_owned());
    }
    let parts = match parsed {
        Ok(parts) => parts,
        Err(_) => {
            return None;
        },
    };
    if str_eq(parts.scheme.as_str(), "file") {
        file_path
    } else if str_eq(parts.scheme.as_str(), "zed") || str_eq(parts.scheme.as_str(), "zed-fs") {
        if parts.path.as_str().is_empty() {
            None
        } else {
            crate::uri::percent_decode(parts.path.as_str())
        }
    } else {
        None
    }
}

/// Resolves a resource URI to the file it names. For every URI but a
/// `file` URL the result is a function of the URI; for a `file` URL it is
/// what the platform makes of it.
pub fn parse_resource_path(uri: &str) -> (r: Option<String>)
    ensures
        exists|file_path: Option<Seq<char>>|
            opt_text(r) == #[trigger] resource_path(uri@, parsed_url(uri@), file_path),
{
    let parsed = crate::uri::parse_url(uri);
    let is_file = match &parsed {
        Ok(parts) => str_eq(parts.scheme.as_str(), "file"),
        Err(_) => false,
    };
    let file_path = if is_file {
        crate::uri::file_url_path(uri)
    } else {
        None
    };
    let ghost witness = opt_text(file_path);
    let r = resource_path_from(uri, &parsed, file_path);
    assert(opt_text(r) == resource_path(uri@, parsed_url(uri@), witness));
    r
}

/// The file the arguments of `read_file` name, given what its URI
/// resolves to: the path where one is given, else the file of the URI;
/// or the complaint.
pub open spec fn tool_path(args: JsonV, resolved_uri: Option<Seq<char>>) -> Result<
    Seq<char>,
    Seq<char>,
> {
    match first_text_arg(args, TOOL_READ_FILE_PATH_ARG@) {
        Some(path) => Ok(path),
        None => match first_text_arg(args, TOOL_READ_FILE_URI_ARG@) {
            Some(_) => match resolved_uri {
                Some(path) => Ok(path),
                None => Err("Unable to resolve URI provided to "@ + TOOL_READ_FILE@),
            },
            None => Err(
                TOOL_FAILURE_PREFIX@ + ": missing "@ + TOOL_READ_FILE_PATH_ARG@ + " or "@
                    + TOOL_READ_FILE_URI_ARG@,
            ),
        },
    }
}

/// The model of a text result.
pub open spec fn text_result_view(result: Result<String, String>) -> Result<Seq<char>, Seq<char>> {
    match result {
        Ok(t) => Ok(t@),
        Err(e) => Err(e@),
    }
}

/// The file the arguments of `read_file` name, given what its URI
/// resolves to.
pub fn tool_path_from(args: &Json, resolved_uri: Option<String>) -> (r: Result<String, String>)
    ensures
        text_result_view(r) == tool_path(args@, opt_text(resolved_uri)),
{
    if let Some(path) = text_arg(args, TOOL_READ_FILE_PATH_ARG) {
        return Ok(path.to_owned());
    }
    if text_arg(args, TOOL_READ_FILE_URI_ARG).is_some() {
        return match resolved_uri {
            Some(path) => Ok(path),
            None => Err(concat("Unable to resolve URI provided to ", TOOL_READ_FILE)),
        };
    }
    let mut message = TOOL_FAILURE_PREFIX.to_owned();
    message.append(": missing ");
    message.append(TOOL_READ_FILE_PATH_ARG);
    message.append(" or ");
    message.append(TOOL_READ_FILE_URI_ARG);
    Err(message)
}

/// What the URI among the arguments of `read_file` resolves to, given
/// what the platform makes of it as a `file` URL; nothing where the
/// arguments hold no URI.
pub open spec fn resolved_uri(args: JsonV, file_path: Option<Seq<char>>) -> Option<Seq<char>> {
    match first_text_arg(args, TOOL_READ_FILE_URI_ARG@) {
        Some(uri) => resource_path(uri, parsed_url(uri), file_path),
        None => None,
    }
}

/// The file the arguments of `read_file` name: the path where one is
/// given, else what the URI resolves to.
pub fn parse_tool_path(args: &Json) -> (r: Result<String, String>)
    ensures
        exists|file_path: Option<Seq<char>>|
            text_result_view(r) == tool_path(args@, #[trigger] resolved_uri(args@, file_path)),
        first_text_arg(args@, TOOL_READ_FILE_PATH_ARG@) is Some ==> text_result_view(r) == Ok::<
            Seq<char>,
            Seq<char>,
        >(first_text_arg(args@, TOOL_READ_FILE_PATH_ARG@)->0),
{
    let ghost mut witness: Option<Seq<char>> = None;
    let resolved = if text_arg(args, TOOL_READ_FILE_PATH_ARG).is_none() {
        match text_arg(args, TOOL_READ_FILE_URI_ARG) {
            Some(uri) => {
                let path = parse_resource_path(uri);
                proof {
                    witness = choose|file_path: Option<Seq<char>>|
                        opt_text(path) == #[trigger] resource_path(
                            uri@,
                            parsed_url(uri@),
                            file_path,
                        );
                }
                path
            },
            None => None,
        }
    } else {
        None
    };
    let r = tool_path_from(args, resolved);
    assert(text_result_view(r) == tool_path(args@, resolved_uri(args@, witness)));
    r
}

/// Model of a [`ReadFileRequest`].
pub struct ReadFileRequestV {
    pub path: Seq<char>,
    pub line: Option<u32>,
    pub limit: Option<u32>,
}

/// What to ask of the client to read a file.
#[derive(Debug)]
pub struct ReadFileRequest {
    pub path: String,
    pub line: Option<u32>,
    pub limit: Option<u32>,
}

impl View for ReadFileRequest {
    type V = ReadFileRequestV;

    open spec fn view(&self) -> ReadFileRequestV {
        ReadFileRequestV { path: self.path@, line: self.line, limit: self.limit }
    }
}

/// The count under `key`, where it is an unsigned integer.
pub open spec fn count_arg(args: JsonV, key: Seq<char>) -> Option<u32> {
    match args.get_u64(key) {
        Some(n) => Some(crate::llm::providers::openrouter::decoder::low_u32(n)),
        None => None,
    }
}

/// The request that the arguments of `read_file` stand for, given what
/// its URI resolves to; or the complaint.
pub open spec fn read_request(args: JsonV, resolved_uri: Option<Seq<char>>) -> Result<
    ReadFileRequestV,
    Seq<char>,
> {
    match tool_path(args, resolved_uri) {
        Err(e) => Err(e),
        Ok(path) => Ok(
            ReadFileRequestV {
                path,
                line: count_arg(args, TOOL_READ_FILE_LINE_ARG@),
                limit: count_arg(args, TOOL_READ_FILE_LIMIT_ARG@),
            },
        ),
    }
}

/// The model of a read request result.
pub open spec fn read_request_view(result: Result<ReadFileRequest, String>) -> Result<
    ReadFileRequestV,
    Seq<char>,
> {
    match result {
        Ok(r) => Ok(r@),
        Err(e) => Err(e@),
    }
}

fn read_count(args: &Json, key: &str) -> (r: Option<u32>)
    ensures
        r == count_arg(args@, key@),
{
    match args.get_u64(key) {
        Some(n) => Some((n % 0x1_0000_0000) as u32),
        None => None,
    }
}

/// The request that the arguments of `read_file` stand for: the file
/// they name, by path or else by what the URI resolves to, with the line
/// and the limit where they are numbers.
pub fn read_file_request(args: &Json) -> (r: Result<ReadFileRequest, String>)
    ensures
        exists|file_path: Option<Seq<char>>|
            read_request_view(r) == read_request(args@, #[trigger] resolved_uri(args@, file_path)),
{
    let path = parse_tool_path(args);
    let ghost file_path = choose|file_path: Option<Seq<char>>|
        text_result_view(path) == tool_path(args@, #[trigger] resolved_uri(args@, file_path));
    let ghost resolved = resolved_uri(args@, file_path);
    let r = match path {
        Err(e) => Err(e),
        Ok(path) => Ok(
            ReadFileRequest {
                path,
                line: read_count(args, TOOL_READ_FILE_LINE_ARG),
                limit: read_count(args, TOOL_READ_FILE_LIMIT_ARG),
            },
        ),
    };
    assert(read_request_view(r) == read_request(args@, resolved));
    r
}

/// The report of a `read_file` whose file the client read: the content,
/// cut to the most characters that go back to the model and marked where
/// it was cut, in the success envelope.
pub open spec fn read_success(path: Seq<char>, content: Seq<char>) -> ToolExecutionReportV {
    let cut = truncated_text(content);
    ToolExecutionReportV::success(
        seq![
            if cut.1 {
                cut.0 + "\n\n[truncated]"@
            } else {
                cut.0
            },
        ],
        success_envelope(path, cut.0, cut.1),
    )
}

/// The report of a `read_file` that the client could not serve.
pub open spec fn read_failure(error: Seq<char>) -> ToolExecutionReportV {
    ToolExecutionReportV::failure(TOOL_READ_FILE@, "Unable to read file: "@ + error)
}

/// Reports a `read_file` whose file the client read.
pub fn read_file_success(path: &str, content: &str) -> (r: ToolExecutionReport)
    ensures
        r@ == read_success(path@, content@),
{
    let (truncated_content, truncated) = truncate_text(content);
    let mut tool_content = truncated_content.clone();
    if truncated {
        tool_content.append("\n\n[truncated]");
    }
    let mut fields: Vec<(String, Json)> = Vec::new();
    fields.push(("status".to_owned(), Json::string("success")));
    fields.push(("tool".to_owned(), Json::string(TOOL_READ_FILE)));
    fields.push(("path".to_owned(), Json::string(path)));
    fields.push(("content".to_owned(), Json::string(truncated_content.as_str())));
    let flag = Json::Bool(truncated);
    assert(flag@ == JsonV::Bool(truncated));
    fields.push(("truncated".to_owned(), flag));
    let payload = Json::Object(fields);
    assert(payload@->Object_0 =~= seq!["status"@, "tool"@, "path"@, "content"@, "truncated"@]);
    assert(payload@->Object_1 =~= seq![
        JsonV::Str("success"@),
        JsonV::Str(TOOL_READ_FILE@),
        JsonV::Str(path@),
        JsonV::Str(truncated_content@),
        JsonV::Bool(truncated),
    ]);
    let mut shown: Vec<String> = Vec::new();
    shown.push(tool_content);
    assert(text_views(shown@) =~= seq![tool_content@]);
    ToolExecutionReport::success(shown, payload)
}

/// Reports a `read_file` that the client could not serve.
pub fn read_file_failure(error: &str) -> (r: ToolExecutionReport)
    ensures
        r@ == read_failure(error@),
{
    let message = concat("Unable to read file: ", error);
    ToolExecutionReport::failure(TOOL_READ_FILE, message.as_str())
}

/// `target` with `segment` on a new line, or `segment` alone where
/// `target` is empty.
pub open spec fn with_segment_line(target: Seq<char>, segment: Seq<char>) -> Seq<char> {
    if target.len() > 0 {
        target + seq!['\n'] + segment
    } else {
        segment
    }
}

/// Adds a segment on a line of its own.
pub fn append_segment(target: &mut String, segment: &str)
    ensures
        final(target)@ == with_segment_line(old(target)@, segment@),
{
    let ghost before = target@;
    if !target.as_str().is_empty() {
        target.push('\n');
        assert(target@ =~= before + seq!['\n']);
    } else {
        assert(before + segment@ =~= segment@);
    }
    target.append(segment);
}

/// A resource as context for the model: its content between an opening
/// line that names it and a closing line, the content ending in a line
/// feed; or, where there is no content, a line that names it.
pub open spec fn context_block(name: Seq<char>, uri: Seq<char>, body: Option<Seq<char>>) -> Seq<
    char,
> {
    match body {
        Some(content) => "<context uri=\""@ + uri + "\" name=\""@ + name + "\">\n"@ + content + (
        if content.len() > 0 && content.last() == '\n' {
            Seq::<char>::empty()
        } else {
            seq!['\n']
        }) + "</context>"@,
        None => RESOURCE_FALLBACK_LABEL@ + " "@ + name + " ("@ + uri + ")"@,
    }
}

/// The line for a resource that could not be had.
pub open spec fn unavailable_line(name: Seq<char>, uri: Seq<char>) -> Seq<char> {
    RESOURCE_FAILURE_LABEL@ + " "@ + name + " ("@ + uri + ")"@
}

/// Renders a resource as context for the model.
pub fn render_context_block(name: &str, uri: &str, body: Option<&str>) -> (r: String)
    ensures
        r@ == context_block(
            name@,
            uri@,
            match body {
                Some(b) => Some(b@),
                None => None,
            },
        ),
{
    match body {
        Some(content) => {
            let mut rendered = "<context uri=\"".to_owned();
            rendered.append(uri);
            rendered.append("\" name=\"");
            rendered.append(name);
            rendered.append("\">\n");
            rendered.append(content);
            let chars = chars_of(content);
            if !(chars.len() > 0 && chars[chars.len() - 1] == '\n') {
                let ghost before = rendered@;
                rendered.push('\n');
                assert(rendered@ =~= before + seq!['\n']);
            } else {
                assert(rendered@ + Seq::<char>::empty() =~= rendered@);
            }
            rendered.append("</context>");
            rendered
        },
        None => {
            let mut rendered = RESOURCE_FALLBACK_LABEL.to_owned();
            rendered.append(" ");
            rendered.append(name);
            rendered.append(" (");
            rendered.append(uri);
            rendered.append(")");
            rendered
        },
    }
}

/// Renders the line for a resource that could not be had.
pub fn render_unavailable(name: &str, uri: &str) -> (r: String)
    ensures
        r@ == unavailable_line(name@, uri@),
{
    let mut rendered = RESOURCE_FAILURE_LABEL.to_owned();
    rendered.append(" ");
    rendered.append(name);
    rendered.append(" (");
    rendered.append(uri);
    rendered.append(")");
    rendered
}

/// Model of a [`ContentBlock`].
#[allow(inconsistent_fields)]
pub enum ContentBlockV {
    Text { text: Seq<char> },
    ResourceLink { uri: Seq<char>, name: Seq<char> },
    TextResource { uri: Seq<char>, text: Seq<char> },
    BlobResource { uri: Seq<char> },
    Image { uri: Option<Seq<char>>, mime_type: Seq<char> },
    Audio { mime_type: Seq<char> },
}

/// A block of a prompt, as the client sends it.
#[derive(Debug)]
#[allow(inconsistent_fields)]
pub enum ContentBlock {
    Text { text: String },
    ResourceLink { uri: String, name: String },
    TextResource { uri: String, text: String },
    BlobResource { uri: String },
    Image { uri: Option<String>, mime_type: String },
    Audio { mime_type: String },
}

impl View for ContentBlock {
    type V = ContentBlockV;

    open spec fn view(&self) -> ContentBlockV {
        match self {
            ContentBlock::Text { text } => ContentBlockV::Text { text: text@ },
            ContentBlock::ResourceLink { uri, name } => ContentBlockV::ResourceLink {
                uri: uri@,
                name: name@,
            },
            ContentBlock::TextResource { uri, text } => ContentBlockV::TextResource {
                uri: uri@,
                text: text@,
            },
            ContentBlock::BlobResource { uri } => ContentBlockV::BlobResource { uri: uri@ },
            ContentBlock::Image { uri, mime_type } => ContentBlockV::Image {
                uri: opt_text(*uri),
                mime_type: mime_type@,
            },
            ContentBlock::Audio { mime_type } => ContentBlockV::Audio { mime_type: mime_type@ },
        }
    }
}

/// Model of a [`LinkRead`].
pub enum LinkReadV {
    Unavailable,
    Content(Seq<char>),
    Failed,
}

/// What came of reading a linked resource: it could not be asked for
/// (no client, or a URI that names no file), it was read, or the client
/// failed to read it.
#[derive(Debug)]
pub enum LinkRead {
    Unavailable,
    Content(String),
    Failed,
}

impl View for LinkRead {
    type V = LinkReadV;

    open spec fn view(&self) -> LinkReadV {
        match self {
            LinkRead::Unavailable => LinkReadV::Unavailable,
            LinkRead::Content(text) => LinkReadV::Content(text@),
            LinkRead::Failed => LinkReadV::Failed,
        }
    }
}

/// The models of a sequence of blocks.
pub open spec fn block_views(blocks: Seq<ContentBlock>) -> Seq<ContentBlockV> {
    Seq::new(blocks.len(), |i: int| blocks[i]@)
}

/// The models of a sequence of link reads.
pub open spec fn link_read_views(reads: Seq<LinkRead>) -> Seq<LinkReadV> {
    Seq::new(reads.len(), |i: int| reads[i]@)
}

/// What a linked resource adds to the prompt.
pub open spec fn link_segment(name: Seq<char>, uri: Seq<char>, read: LinkReadV) -> Seq<char> {
    match read {
        LinkReadV::Unavailable => context_block(name, uri, None),
        LinkReadV::Content(text) => context_block(name, uri, Some(text)),
        LinkReadV::Failed => unavailable_line(name, uri),
    }
}

/// What a block that is no link adds to the prompt: text as it stands, an
/// embedded text as context, and a line that names anything else.
pub open spec fn plain_segment(block: ContentBlockV) -> Seq<char> {
    match block {
        ContentBlockV::Text { text } => text,
        ContentBlockV::ResourceLink { uri, name } => context_block(name, uri, None),
        ContentBlockV::TextResource { uri, text } => context_block(uri, uri, Some(text)),
        ContentBlockV::BlobResource { uri } => unavailable_line(uri, uri),
        ContentBlockV::Image { uri, mime_type } => RESOURCE_FALLBACK_LABEL@ + " image ("@ + (
        match uri {
            Some(u) => u,
            None => mime_type,
        }) + ")"@,
        ContentBlockV::Audio { mime_type } => RESOURCE_FALLBACK_LABEL@ + " audio ("@ + mime_type
            + ")"@,
    }
}

/// The prompt from block `i` on, added to `out`, where `used` of the link
/// reads are spent: each block is a line of its own, and each link takes
/// the next read; a link without a read counts as one that could not be
/// asked for.
pub open spec fn prompt_from(
    blocks: Seq<ContentBlockV>,
    i: int,
    reads: Seq<LinkReadV>,
    used: int,
    out: Seq<char>,
) -> Seq<char>
    decreases blocks.len() - i,
{
    if 0 <= i < blocks.len() {
        match blocks[i] {
            ContentBlockV::ResourceLink { uri, name } => prompt_from(
                blocks,
                i + 1,
                reads,
                used + 1,
                with_segment_line(
                    out,
                    link_segment(
                        name,
                        uri,
                        if 0 <= used < reads.len() {
                            reads[used]
                        } else {
                            LinkReadV::Unavailable
                        },
                    ),
                ),
            ),
            other => prompt_from(
                blocks,
                i + 1,
                reads,
                used,
                with_segment_line(out, plain_segment(other)),
            ),
        }
    } else {
        out
    }
}

/// The text of a prompt, given what came of reading its links, in order.
pub open spec fn resolved_prompt(blocks: Seq<ContentBlockV>, reads: Seq<LinkReadV>) -> Seq<char> {
    prompt_from(blocks, 0, reads, 0, Seq::empty())
}

fn render_plain_segment(block: &ContentBlock) -> (r: String)
    ensures
        r@ == plain_segment(block@),
{
    match block {
        ContentBlock::Text { text } => text.clone(),
        ContentBlock::ResourceLink { uri, name } => render_context_block(
            name.as_str(),
            uri.as_str(),
            None,
        ),
        ContentBlock::TextResource { uri, text } => render_context_block(
            uri.as_str(),
            uri.as_str(),
            Some(text.as_str()),
        ),
        ContentBlock::BlobResource { uri } => render_unavailable(uri.as_str(), uri.as_str()),
        ContentBlock::Image { uri, mime_type } => {
            let mut rendered = RESOURCE_FALLBACK_LABEL.to_owned();
            rendered.append(" image (");
            match uri {
                Some(u) => rendered.append(u.as_str()),
                None => rendered.append(mime_type.as_str()),
            }
            rendered.append(")");
            rendered
        },
        ContentBlock::Audio { mime_type } => {
            let mut rendered = RESOURCE_FALLBACK_LABEL.to_owned();
            rendered.append(" audio (");
            rendered.append(mime_type.as_str());
            rendered.append(")");
            rendered
        },
    }
}

fn render_link_segment(name: &str, uri: &str, read: Option<&LinkRead>) -> (r: String)
    ensures
        r@ == link_segment(
            name@,
            uri@,
            match read {
                Some(x) => x@,
                None => LinkReadV::Unavailable,
            },
        ),
{
    match read {
        Some(LinkRead::Content(text)) => render_context_block(name, uri, Some(text.as_str())),
        Some(LinkRead::Failed) => render_unavailable(name, uri),
        _ => render_context_block(name, uri, None),
    }
}

/// Puts a prompt together from its blocks, given what came of reading its
/// links, in order.
pub fn resolve_prompt(blocks: &[ContentBlock], reads: &[LinkRead]) -> (r: String)
    ensures
        r@ == resolved_prompt(block_views(blocks@), link_read_views(reads@)),
{
    let ghost bs = block_views(blocks@);
    let ghost rs = link_read_views(reads@);
    let mut aggregated = String::new();
    let mut used: usize = 0;
    let mut i: usize = 0;
    while i < blocks.len()
        invariant
            i <= blocks.len(),
            used <= i,
            bs == block_views(blocks@),
            rs == link_read_views(reads@),
            prompt_from(bs, i as int, rs, used as int, aggregated@) == resolved_prompt(bs, rs),
        decreases blocks.len() - i,
    {
        match &blocks[i] {
            ContentBlock::ResourceLink { uri, name } => {
                let read = if used < reads.len() {
                    Some(&reads[used])
                } else {
                    None
                };
                let rendered = render_link_segment(name.as_str(), uri.as_str(), read);
                append_segment(&mut aggregated, rendered.as_str());
                used += 1;
            },
            other => {
                let rendered = render_plain_segment(other);
                append_segment(&mut aggregated, rendered.as_str());
            },
        }
        i += 1;
    }
    aggregated
}

/// Model of a [`ToolDisableReason`].
pub enum ToolDisableReasonV {
    Config,
    Provider { provider: Seq<char>, model: Seq<char> },
}

/// Why tools are off for a turn.
#[derive(Debug)]
pub enum ToolDisableReason {
    /// The configuration turns them off.
    Config,
    /// The model cannot call functions.
    Provider { provider: String, model: String },
}

impl View for ToolDisableReason {
    type V = ToolDisableReasonV;

    open spec fn view(&self) -> ToolDisableReasonV {
        match self {
            ToolDisableReason::Config => ToolDisableReasonV::Config,
            ToolDisableReason::Provider { provider, model } => ToolDisableReasonV::Provider {
                provider: provider@,
                model: model@,
            },
        }
    }
}

/// The notice that tools are off, as one sentence.
pub open spec fn disable_notice(reason: ToolDisableReasonV) -> Seq<char> {
    let text = match reason {
        ToolDisableReasonV::Config => "Skipping "@ + TOOL_READ_FILE@
            + " tool: disabled via [acp.zed.tools]"@,
        ToolDisableReasonV::Provider { provider, model } => "Skipping "@ + TOOL_READ_FILE@
            + " tool: model "@ + model + " on "@ + provider
            + " does not support function calling"@,
    };
    if text.len() > 0 && text.last() == '.' {
        text
    } else {
        text.push('.')
    }
}

/// Words the notice that tools are off.
pub fn tool_disable_notice(reason: &ToolDisableReason) -> (r: String)
    ensures
        r@ == disable_notice(reason@),
{
    let mut notice = "Skipping ".to_owned();
    notice.append(TOOL_READ_FILE);
    match reason {
        ToolDisableReason::Config => {
            notice.append(" tool: disabled via [acp.zed.tools]");
        },
        ToolDisableReason::Provider { provider, model } => {
            notice.append(" tool: model ");
            notice.append(model.as_str());
            notice.append(" on ");
            notice.append(provider.as_str());
            notice.append(" does not support function calling");
        },
    }
    let chars = chars_of(notice.as_str());
    if !(chars.len() > 0 && chars[chars.len() - 1] == '.') {
        notice.push('.');
    }
    notice
}

/// The stop reason that a finish reason stands for.
pub open spec fn stop_reason_of(finish: FinishReasonV) -> StopReason {
    match finish {
        FinishReasonV::Stop => StopReason::EndTurn,
        FinishReasonV::ToolCalls => StopReason::EndTurn,
        FinishReasonV::Length => StopReason::MaxTokens,
        FinishReasonV::ContentFilter => StopReason::Refusal,
        FinishReasonV::Error(_) => StopReason::Refusal,
    }
}

/// Maps a finish reason to the stop reason of the turn.
pub fn stop_reason_from_finish(finish: &FinishReason) -> (r: StopReason)
    ensures
        r == stop_reason_of(finish@),
{
    match finish {
        FinishReason::Stop => StopReason::EndTurn,
        FinishReason::ToolCalls => StopReason::EndTurn,
        FinishReason::Length => StopReason::MaxTokens,
        FinishReason::ContentFilter => StopReason::Refusal,
        FinishReason::Error(_) => StopReason::Refusal,
    }
}

/// Model of a [`SessionData`].
pub struct SessionDataV {
    pub messages: Seq<MessageV>,
    pub tool_notice_sent: bool,
    pub cancel_flag: bool,
}

/// A session: its history, whether the notice that tools are off has gone
/// out, and whether the client asked to cancel the turn.
#[derive(Debug)]
pub struct SessionData {
    pub messages: Vec<Message>,
    pub tool_notice_sent: bool,
    pub cancel_flag: bool,
}

impl View for SessionData {
    type V = SessionDataV;

    open spec fn view(&self) -> SessionDataV {
        SessionDataV {
            messages: message_views(self.messages@),
            tool_notice_sent: self.tool_notice_sent,
            cancel_flag: self.cancel_flag,
        }
    }
}

impl SessionDataV {
    /// A session that has seen nothing.
    pub open spec fn fresh() -> SessionDataV {
        SessionDataV { messages: Seq::empty(), tool_notice_sent: false, cancel_flag: false }
    }
}

impl SessionData {
    /// A session that has seen nothing.
    pub fn new() -> (r: SessionData)
        ensures
            r@ == SessionDataV::fresh(),
    {
        let r = SessionData { messages: Vec::new(), tool_notice_sent: false, cancel_flag: false };
        assert(r@.messages =~= Seq::empty());
        r
    }

    /// Adds a message to the history.
    pub fn push_message(&mut self, message: Message)
        ensures
            final(self)@ == (SessionDataV {
                messages: old(self)@.messages.push(message@),
                ..old(self)@
            }),
    {
        let ghost before = self@.messages;
        self.messages.push(message);
        assert(self@.messages =~= before.push(message@));
    }

    /// Whether the notice that tools are off is still owed.
    pub fn should_send_tool_notice(&self) -> (r: bool)
        ensures
            r == !self@.tool_notice_sent,
    {
        !self.tool_notice_sent
    }

    pub fn mark_tool_notice_sent(&mut self)
        ensures
            final(self)@ == (SessionDataV { tool_notice_sent: true, ..old(self)@ }),
    {
        self.tool_notice_sent = true;
    }

    /// Asks for the turn to be cancelled.
    pub fn cancel(&mut self)
        ensures
            final(self)@ == (SessionDataV { cancel_flag: true, ..old(self)@ }),
    {
        self.cancel_flag = true;
    }
}

/// The name of the session with the given number.
pub open spec fn session_name(number: u64) -> Seq<char> {
    SESSION_PREFIX@ + "-"@ + decimal_spec(number as nat)
}

/// The models of a sequence of sessions.
pub open spec fn session_views(sessions: Seq<SessionData>) -> Seq<SessionDataV> {
    Seq::new(sessions.len(), |i: int| sessions[i]@)
}

/// Model of a [`SessionStore`]: the number of the next session, and the
/// names of the sessions with, index by index, the sessions.
pub struct SessionStoreV {
    pub next_session_id: u64,
    pub ids: Seq<Seq<char>>,
    pub sessions: Seq<SessionDataV>,
}

/// The sessions of a bridge, by name.
#[derive(Debug)]
pub struct SessionStore {
    pub next_session_id: u64,
    pub ids: Vec<String>,
    pub sessions: Vec<SessionData>,
}

impl View for SessionStore {
    type V = SessionStoreV;

    open spec fn view(&self) -> SessionStoreV {
        SessionStoreV {
            next_session_id: self.next_session_id,
            ids: text_views(self.ids@),
            sessions: session_views(self.sessions@),
        }
    }
}

impl SessionStore {
    /// A store without sessions.
    pub fn new() -> (r: SessionStore)
        ensures
            r@ == (SessionStoreV {
                next_session_id: 0,
                ids: Seq::empty(),
                sessions: Seq::empty(),
            }),
    {
        let r = SessionStore { next_session_id: 0, ids: Vec::new(), sessions: Vec::new() };
        assert(r@.ids =~= Seq::empty());
        assert(r@.sessions =~= Seq::empty());
        r
    }

    /// Opens a session and returns its name: the prefix, a hyphen, and the
    /// number of the session, which grows by one with each session.
    pub fn register_session(&mut self) -> (r: String)
        requires
            old(self).next_session_id < u64::MAX,
            old(self).ids@.len() == old(self).sessions@.len(),
        ensures
            r@ == session_name(old(self)@.next_session_id),
            final(self)@ == (SessionStoreV {
                next_session_id: (old(self)@.next_session_id + 1) as u64,
                ids: old(self)@.ids.push(r@),
                sessions: old(self)@.sessions.push(SessionDataV::fresh()),
            }),
            final(self).ids@.len() == final(self).sessions@.len(),
    {
        let raw_id = self.next_session_id;
        self.next_session_id = raw_id + 1;
        let mut session_id = SESSION_PREFIX.to_owned();
        session_id.append("-");
        session_id.append(decimal(raw_id).as_str());
        let ghost ids = self@.ids;
        let ghost sessions = self@.sessions;
        self.ids.push(session_id.clone());
        self.sessions.push(SessionData::new());
        assert(self@.ids =~= ids.push(session_id@));
        assert(self@.sessions =~= sessions.push(SessionDataV::fresh()));
        session_id
    }

    /// The place of the session of a name.
    pub fn session_index(&self, session_id: &str) -> (r: Option<usize>)
        ensures
            match r {
                Some(i) => i == crate::json::key_index_from(self@.ids, session_id@, 0) && i
                    < self.ids@.len(),
                None => crate::json::key_index_from(self@.ids, session_id@, 0) == self@.ids.len(),
            },
    {
        let ghost ids = self@.ids;
        let mut i: usize = 0;
        while i < self.ids.len()
            invariant
                i <= self.ids.len(),
                ids == text_views(self.ids@),
                crate::json::key_index_from(ids, session_id@, i as int)
                    == crate::json::key_index_from(ids, session_id@, 0),
            decreases self.ids.len() - i,
        {
            if str_eq(self.ids[i].as_str(), session_id) {
                return Some(i);
            }
            i += 1;
        }
        None
    }

    /// Asks for the turn of a session to be cancelled; a name without a
    /// session changes nothing.
    pub fn cancel(&mut self, session_id: &str)
        ensures
            final(self)@.next_session_id == old(self)@.next_session_id,
            final(self)@.ids == old(self)@.ids,
            ({
                let i = crate::json::key_index_from(old(self)@.ids, session_id@, 0);
                final(self)@.sessions == if 0 <= i < old(self)@.sessions.len() && i < old(
                    self,
                )@.ids.len() {
                    old(self)@.sessions.update(
                        i,
                        SessionDataV { cancel_flag: true, ..old(self)@.sessions[i] },
                    )
                } else {
                    old(self)@.sessions
                }
            }),
    {
        if let Some(i) = self.session_index(session_id) {
            if i < self.sessions.len() {
                let ghost before = self@.sessions;
                let mut slot = SessionData::new();
                std::mem::swap(&mut slot, &mut self.sessions[i]);
                slot.cancel();
                self.sessions.set(i, slot);
                assert(self@.sessions =~= before.update(
                    i as int,
                    SessionDataV { cancel_flag: true, ..before[i as int] },
                ));
            }
        }
    }
}

/// What a provider can do for the model of the turn.
#[derive(Clone, Copy, Debug, PartialEq, Eq, Structural)]
pub struct ProviderCapabilities {
    pub supports_streaming: bool,
    pub supports_reasoning_effort: bool,
    pub supports_tools: bool,
}

/// Model of a [`ZedAgent`].
pub struct ZedAgentV {
    pub read_file_enabled: bool,
    pub system_prompt: Seq<char>,
    pub provider: Seq<char>,
    pub model: Seq<char>,
    pub reasoning_effort: Seq<char>,
    pub tool_registry: ToolRegistryV,
}

/// The agent behind the bridge: what it is configured to do and the tools
/// it offers.
#[derive(Debug)]
pub struct ZedAgent {
    pub read_file_enabled: bool,
    pub system_prompt: String,
    pub provider: String,
    pub model: String,
    pub reasoning_effort: String,
    pub tool_registry: ToolRegistry,
}

impl View for ZedAgent {
    type V = ZedAgentV;

    open spec fn view(&self) -> ZedAgentV {
        ZedAgentV {
            read_file_enabled: self.read_file_enabled,
            system_prompt: self.system_prompt@,
            provider: self.provider@,
            model: self.model@,
            reasoning_effort: self.reasoning_effort@,
            tool_registry: self.tool_registry@,
        }
    }
}

/// Model of a [`TurnPlan`].
pub struct TurnPlanV {
    pub notice: Option<Seq<char>>,
    pub tools_allowed: bool,
    pub allow_streaming: bool,
    pub reasoning_effort: Option<Seq<char>>,
}

/// How a turn is to run: the notice to send first, if any, whether tools
/// may be used, whether the answer is streamed, and the reasoning effort
/// to ask for.
#[derive(Debug)]
pub struct TurnPlan {
    pub notice: Option<String>,
    pub tools_allowed: bool,
    pub allow_streaming: bool,
    pub reasoning_effort: Option<String>,
}

impl View for TurnPlan {
    type V = TurnPlanV;

    open spec fn view(&self) -> TurnPlanV {
        TurnPlanV {
            notice: opt_text(self.notice),
            tools_allowed: self.tools_allowed,
            allow_streaming: self.allow_streaming,
            reasoning_effort: opt_text(self.reasoning_effort),
        }
    }
}

impl ZedAgentV {
    /// Whether any tool is registered.
    pub open spec fn has_tools(self) -> bool {
        self.tool_registry.definitions.len() > 0
    }

    /// Why tools are off for a turn, if they are: no tool is registered or
    /// the configuration turns `read_file` off, or the model cannot call
    /// functions.
    pub open spec fn disable_reason(self, caps: ProviderCapabilities) -> Option<
        ToolDisableReasonV,
    > {
        if self.has_tools() && self.read_file_enabled {
            if caps.supports_tools {
                None
            } else {
                Some(ToolDisableReasonV::Provider { provider: self.provider, model: self.model })
            }
        } else {
            Some(ToolDisableReasonV::Config)
        }
    }

    /// Whether a turn owes the notice that tools are off: they are off,
    /// for whatever reason, and the session has not had the notice.
    pub open spec fn owes_notice(self, session: SessionDataV, caps: ProviderCapabilities) -> bool {
        self.disable_reason(caps) is Some && !session.tool_notice_sent
    }

    /// The plan of a turn.
    pub open spec fn plan(self, session: SessionDataV, caps: ProviderCapabilities) -> TurnPlanV {
        let tools_allowed = self.disable_reason(caps) is None;
        TurnPlanV {
            notice: if self.owes_notice(session, caps) {
                Some(disable_notice(self.disable_reason(caps)->0))
            } else {
                None
            },
            tools_allowed,
            allow_streaming: caps.supports_streaming && !tools_allowed,
            reasoning_effort: if caps.supports_reasoning_effort {
                Some(self.reasoning_effort)
            } else {
                None
            },
        }
    }

    /// The session as a turn finds it once it has begun: the cancel flag
    /// down, the user's message in the history, and the notice marked as
    /// sent where the turn owes it.
    pub open spec fn session_begun(
        self,
        session: SessionDataV,
        user_message: Seq<char>,
        caps: ProviderCapabilities,
    ) -> SessionDataV {
        SessionDataV {
            messages: session.messages.push(MessageV::plain(MessageRole::User, user_message)),
            tool_notice_sent: session.tool_notice_sent || self.owes_notice(session, caps),
            cancel_flag: false,
        }
    }

    /// The messages that go to the provider: the system prompt first,
    /// unless it is blank, then the history.
    pub open spec fn resolved_messages(self, session: SessionDataV) -> Seq<MessageV> {
        if is_blank(self.system_prompt) {
            session.messages
        } else {
            seq![MessageV::plain(MessageRole::System, self.system_prompt)] + session.messages
        }
    }

    /// The request of a turn, or of one more round of it.
    pub open spec fn request(self, session: SessionDataV, plan: TurnPlanV) -> LLMRequestV {
        let with_tools = plan.tools_allowed && self.has_tools();
        LLMRequestV {
            messages: self.resolved_messages(session),
            system_prompt: None,
            tools: if with_tools {
                Some(self.tool_registry.definitions)
            } else {
                None
            },
            model: self.model,
            max_tokens: None,
            temperature: None,
            stream: plan.allow_streaming,
            tool_choice: Some(
                if with_tools {
                    ToolChoiceV::Auto
                } else {
                    ToolChoiceV::Off
                },
            ),
            parallel_tool_calls: None,
            reasoning_effort: plan.reasoning_effort,
        }
    }
}

/// The notice that tools are off goes out at most once per session: a
/// turn owes it only to a session that has not had it, and every session
/// that a turn has begun has had it or is owed none by a turn like it.
pub proof fn lemma_notice_at_most_once(
    agent: ZedAgentV,
    session: SessionDataV,
    first_message: Seq<char>,
    caps: ProviderCapabilities,
    later_caps: ProviderCapabilities,
)
    ensures
        agent.plan(session, caps).notice is Some ==> !session.tool_notice_sent,
        agent.plan(session, caps).notice is Some ==> agent.plan(
            agent.session_begun(session, first_message, caps),
            later_caps,
        ).notice is None,
        session.tool_notice_sent ==> agent.plan(session, caps).notice is None,
        session.tool_notice_sent ==> agent.session_begun(
            session,
            first_message,
            caps,
        ).tool_notice_sent,
{
}

/// The number of notices that a run of turns sends to a session.
pub open spec fn notices_sent(
    agent: ZedAgentV,
    session: SessionDataV,
    turns: Seq<(Seq<char>, ProviderCapabilities)>,
    i: int,
) -> nat
    decreases turns.len() - i,
{
    if 0 <= i < turns.len() {
        let now: nat = if agent.plan(session, turns[i].1).notice is Some {
            1
        } else {
            0
        };
        now + notices_sent(
            agent,
            agent.session_begun(session, turns[i].0, turns[i].1),
            turns,
            i + 1,
        )
    } else {
        0
    }
}

/// However many turns a session sees, it gets the notice that tools are
/// off at most once, and never once it has had it.
pub proof fn lemma_notice_once_per_session(
    agent: ZedAgentV,
    session: SessionDataV,
    turns: Seq<(Seq<char>, ProviderCapabilities)>,
    i: int,
)
    requires
        0 <= i <= turns.len(),
    ensures
        notices_sent(agent, session, turns, i) <= 1,
        session.tool_notice_sent ==> notices_sent(agent, session, turns, i) == 0,
    decreases turns.len() - i,
{
    if i < turns.len() {
        lemma_notice_once_per_session(
            agent,
            agent.session_begun(session, turns[i].0, turns[i].1),
            turns,
            i + 1,
        );
    }
}

impl ZedAgent {
    /// Why tools are off for a turn, if they are.
    pub fn determine_tool_runtime(&self, caps: ProviderCapabilities) -> (r: Option<
        ToolDisableReason,
    >)
        ensures
            match r {
                Some(reason) => self@.disable_reason(caps) == Some(reason@),
                None => self@.disable_reason(caps) is None,
            },
    {
        if !self.tool_registry.is_empty() && self.read_file_enabled {
            if caps.supports_tools {
                None
            } else {
                Some(
                    ToolDisableReason::Provider {
                        provider: self.provider.clone(),
                        model: self.model.clone(),
                    },
                )
            }
        } else {
            Some(ToolDisableReason::Config)
        }
    }

    /// Begins a turn: the cancel flag goes down, the user's message joins
    /// the history, and the plan of the turn is made. Where the plan holds
    /// a notice, the session counts it as sent.
    pub fn begin_turn(
        &self,
        session: &mut SessionData,
        user_message: String,
        caps: ProviderCapabilities,
    ) -> (r: TurnPlan)
        ensures
            r@ == self@.plan(old(session)@, caps),
            final(session)@ == self@.session_begun(old(session)@, user_message@, caps),
    {
        session.cancel_flag = false;
        session.push_message(Message::user(user_message));
        let reason = self.determine_tool_runtime(caps);
        let tools_allowed = reason.is_none();
        let mut notice: Option<String> = None;
        if let Some(reason) = &reason {
            if session.should_send_tool_notice() {
                notice = Some(tool_disable_notice(reason));
                session.mark_tool_notice_sent();
            }
        }
        let reasoning_effort = if caps.supports_reasoning_effort {
            Some(self.reasoning_effort.clone())
        } else {
            None
        };
        TurnPlan {
            notice,
            tools_allowed,
            allow_streaming: caps.supports_streaming && !tools_allowed,
            reasoning_effort,
        }
    }

    /// The messages that go to the provider.
    pub fn resolved_messages(&self, session: &SessionData) -> (r: Vec<Message>)
        ensures
            message_views(r@) == self@.resolved_messages(session@),
    {
        let mut messages = duplicate_messages(&session.messages);
        if !str_is_blank(self.system_prompt.as_str()) {
            let ghost history = message_views(messages@);
            let system = Message::system(self.system_prompt.clone());
            messages.insert(0, system);
            assert(message_views(messages@) =~= seq![system@] + history);
        }
        messages
    }

    /// The tools to offer, where tools may be used and there are any.
    pub fn tool_definitions(&self, enabled: bool) -> (r: Option<Vec<ToolDefinition>>)
        ensures
            crate::llm::provider::opt_tool_definition_views(r) == if enabled
                && self@.has_tools() {
                Some(self@.tool_registry.definitions)
            } else {
                None
            },
    {
        if enabled && !self.tool_registry.is_empty() {
            Some(self.tool_registry.definitions())
        } else {
            None
        }
    }

    /// How the model may use tools: as it sees fit where tools may be
    /// used and there are any, else not at all.
    pub fn tool_choice(&self, enabled: bool) -> (r: Option<ToolChoice>)
        ensures
            crate::llm::provider::opt_tool_choice_view(r) == Some(
                if enabled && self@.has_tools() {
                    ToolChoiceV::Auto
                } else {
                    ToolChoiceV::Off
                },
            ),
    {
        if enabled && !self.tool_registry.is_empty() {
            Some(ToolChoice::auto())
        } else {
            Some(ToolChoice::none())
        }
    }

    /// The request of a turn, or of one more round of it.
    pub fn build_request(&self, session: &SessionData, plan: &TurnPlan) -> (r: LLMRequest)
        ensures
            r@ == self@.request(session@, plan@),
    {
        LLMRequest {
            messages: self.resolved_messages(session),
            system_prompt: None,
            tools: self.tool_definitions(plan.tools_allowed),
            model: self.model.clone(),
            max_tokens: None,
            temperature: None,
            stream: plan.allow_streaming,
            tool_choice: self.tool_choice(plan.tools_allowed),
            parallel_tool_calls: None,
            reasoning_effort: crate::llm::provider::duplicate_opt_text(&plan.reasoning_effort),
        }
    }
}

/// Model of a [`SessionUpdate`] that carries text.
pub enum ChunkV {
    Message(Seq<char>),
    Thought(Seq<char>),
}

/// A piece of the answer to show to the user: text of the answer, or a
/// thought.
#[derive(Debug)]
pub enum Chunk {
    Message(String),
    Thought(String),
}

impl View for Chunk {
    type V = ChunkV;

    open spec fn view(&self) -> ChunkV {
        match self {
            Chunk::Message(t) => ChunkV::Message(t@),
            Chunk::Thought(t) => ChunkV::Thought(t@),
        }
    }
}

/// The models of a sequence of chunks.
pub open spec fn chunk_views(chunks: Seq<Chunk>) -> Seq<ChunkV> {
    Seq::new(chunks.len(), |i: int| chunks[i]@)
}

/// Model of a [`TurnState`].
pub struct TurnStateV {
    pub assistant_message: Seq<char>,
    pub stop_reason: StopReason,
    pub finished: bool,
}

/// Where a turn stands: the answer so far, why it stops, and whether it
/// has.
#[derive(Debug)]
pub struct TurnState {
    pub assistant_message: String,
    pub stop_reason: StopReason,
    pub finished: bool,
}

impl View for TurnState {
    type V = TurnStateV;

    open spec fn view(&self) -> TurnStateV {
        TurnStateV {
            assistant_message: self.assistant_message@,
            stop_reason: self.stop_reason,
            finished: self.finished,
        }
    }
}

/// The chunks that a complete response adds: its answer text where none
/// has arrived before (`fresh`) and it is not empty, then its reasoning
/// unless that is empty.
pub open spec fn response_chunks(response: LLMResponseV, fresh: bool) -> Seq<ChunkV> {
    let text = match response.content {
        Some(c) => if fresh && c.len() > 0 {
            seq![ChunkV::Message(c)]
        } else {
            Seq::empty()
        },
        None => Seq::empty(),
    };
    match response.reasoning {
        Some(r) => if r.len() > 0 {
            text.push(ChunkV::Thought(r))
        } else {
            text
        },
        None => text,
    }
}

impl TurnStateV {
    /// The state at the start of a turn.
    pub open spec fn start() -> TurnStateV {
        TurnStateV {
            assistant_message: Seq::empty(),
            stop_reason: StopReason::EndTurn,
            finished: false,
        }
    }

    /// The state after the cancel flag was found up.
    pub open spec fn cancelled(self) -> TurnStateV {
        TurnStateV { stop_reason: StopReason::Cancelled, finished: true, ..self }
    }

    /// The state after a stream event. A finished turn takes no more; a
    /// raised cancel flag ends the turn as cancelled, whatever the event;
    /// a token grows the answer; the completed response ends the turn.
    pub open spec fn after_event(self, event: LLMStreamEventV, cancelled: bool) -> TurnStateV {
        if self.finished {
            self
        } else if cancelled {
            self.cancelled()
        } else {
            match event {
                LLMStreamEventV::Token { delta } => TurnStateV {
                    assistant_message: self.assistant_message + delta,
                    ..self
                },
                LLMStreamEventV::Reasoning { delta } => self,
                LLMStreamEventV::Completed { response } => TurnStateV {
                    assistant_message: match response.content {
                        Some(c) => if self.assistant_message.len() == 0 {
                            c
                        } else {
                            self.assistant_message
                        },
                        None => self.assistant_message,
                    },
                    stop_reason: stop_reason_of(response.finish_reason),
                    finished: true,
                },
            }
        }
    }

    /// The chunks that a stream event sends to the client.
    pub open spec fn chunks_for(self, event: LLMStreamEventV, cancelled: bool) -> Seq<ChunkV> {
        if self.finished || cancelled {
            Seq::empty()
        } else {
            match event {
                LLMStreamEventV::Token { delta } => if delta.len() > 0 {
                    seq![ChunkV::Message(delta)]
                } else {
                    Seq::empty()
                },
                LLMStreamEventV::Reasoning { delta } => if delta.len() > 0 {
                    seq![ChunkV::Thought(delta)]
                } else {
                    Seq::empty()
                },
                LLMStreamEventV::Completed { response } => response_chunks(
                    response,
                    self.assistant_message.len() == 0,
                ),
            }
        }
    }

    /// Whether a complete response asks for tools to be run.
    pub open spec fn wants_tools(response: LLMResponseV, tools_allowed: bool) -> bool {
        tools_allowed && response.tool_calls is Some && response.tool_calls->0.len() > 0
    }

    /// The state after a complete response that asks for no tools.
    pub open spec fn after_response(self, response: LLMResponseV) -> TurnStateV {
        TurnStateV {
            assistant_message: match response.content {
                Some(c) => c,
                None => self.assistant_message,
            },
            stop_reason: stop_reason_of(response.finish_reason),
            finished: true,
        }
    }

    /// The history once the turn is over: the answer joins it unless the
    /// turn was cancelled or the answer is empty.
    pub open spec fn history_after(self, messages: Seq<MessageV>) -> Seq<MessageV> {
        if self.stop_reason != StopReason::Cancelled && self.assistant_message.len() > 0 {
            messages.push(MessageV::plain(MessageRole::Assistant, self.assistant_message))
        } else {
            messages
        }
    }
}

/// A turn that finds the cancel flag up before the next stream event ends
/// as cancelled, sends nothing more, and leaves the history as it was.
pub proof fn lemma_cancel_ends_turn(
    state: TurnStateV,
    event: LLMStreamEventV,
    messages: Seq<MessageV>,
)
    requires
        !state.finished,
    ensures
        state.after_event(event, true).stop_reason == StopReason::Cancelled,
        state.after_event(event, true).finished,
        state.chunks_for(event, true).len() == 0,
        state.after_event(event, true).history_after(messages) == messages,
        state.after_event(event, true).assistant_message == state.assistant_message,
{
}

/// An empty answer never joins the history.
pub proof fn lemma_empty_answer_is_not_recorded(state: TurnStateV, messages: Seq<MessageV>)
    requires
        state.assistant_message.len() == 0,
    ensures
        state.history_after(messages) == messages,
{
}

/// Model of a [`ToolCallResult`].
pub struct ToolCallResultV {
    pub tool_call_id: Seq<char>,
    pub llm_response: Seq<char>,
}

/// What a tool call gives back to the model.
#[derive(Debug)]
pub struct ToolCallResult {
    pub tool_call_id: String,
    pub llm_response: String,
}

impl View for ToolCallResult {
    type V = ToolCallResultV;

    open spec fn view(&self) -> ToolCallResultV {
        ToolCallResultV { tool_call_id: self.tool_call_id@, llm_response: self.llm_response@ }
    }
}

/// The models of a sequence of tool-call results.
pub open spec fn result_views(results: Seq<ToolCallResult>) -> Seq<ToolCallResultV> {
    Seq::new(results.len(), |i: int| results[i]@)
}

/// The history after the answers to tool calls from index `i` on have
/// joined it, in order.
pub open spec fn with_results_from(
    messages: Seq<MessageV>,
    results: Seq<ToolCallResultV>,
    i: int,
) -> Seq<MessageV>
    decreases results.len() - i,
{
    if 0 <= i < results.len() {
        with_results_from(
            messages.push(
                MessageV {
                    role: MessageRole::Tool,
                    content: results[i].llm_response,
                    tool_calls: None,
                    tool_call_id: Some(results[i].tool_call_id),
                },
            ),
            results,
            i + 1,
        )
    } else {
        messages
    }
}

/// Model of a [`ResponseStep`].
pub enum ResponseStepV {
    RunTools(Seq<ToolCallV>),
    Finish(Seq<ChunkV>),
}

/// What to do with a complete response: run the tools it asks for, or send
/// its chunks and end the turn.
#[derive(Debug)]
pub enum ResponseStep {
    RunTools(Vec<ToolCall>),
    Finish(Vec<Chunk>),
}

impl View for ResponseStep {
    type V = ResponseStepV;

    open spec fn view(&self) -> ResponseStepV {
        match self {
            ResponseStep::RunTools(calls) => ResponseStepV::RunTools(
                crate::llm::provider::tool_call_views(calls@),
            ),
            ResponseStep::Finish(chunks) => ResponseStepV::Finish(chunk_views(chunks@)),
        }
    }
}

fn push_response_chunks(chunks: &mut Vec<Chunk>, response: &LLMResponse, fresh: bool)
    requires
        old(chunks)@.len() == 0,
    ensures
        chunk_views(final(chunks)@) == response_chunks(response@, fresh),
{
    if let Some(content) = &response.content {
        if fresh && !content.as_str().is_empty() {
            chunks.push(Chunk::Message(content.clone()));
        }
    }
    let ghost text = chunk_views(chunks@);
    assert(text =~= match response@.content {
        Some(c) => if fresh && c.len() > 0 {
            seq![ChunkV::Message(c)]
        } else {
            Seq::empty()
        },
        None => Seq::empty(),
    });
    if let Some(reasoning) = &response.reasoning {
        if !reasoning.as_str().is_empty() {
            chunks.push(Chunk::Thought(reasoning.clone()));
            assert(chunk_views(chunks@) =~= text.push(ChunkV::Thought(reasoning@)));
        }
    }
}

impl TurnState {
    /// The state at the start of a turn.
    pub fn new() -> (r: TurnState)
        ensures
            r@ == TurnStateV::start(),
    {
        TurnState {
            assistant_message: String::new(),
            stop_reason: StopReason::EndTurn,
            finished: false,
        }
    }

    /// Looks at the cancel flag before a round of the turn: a raised flag
    /// ends the turn as cancelled. Returns whether the turn goes on.
    pub fn check_cancelled(&mut self, cancelled: bool) -> (r: bool)
        ensures
            final(self)@ == if cancelled && !old(self)@.finished {
                old(self)@.cancelled()
            } else {
                old(self)@
            },
            r == !final(self)@.finished,
    {
        if cancelled && !self.finished {
            self.stop_reason = StopReason::Cancelled;
            self.finished = true;
        }
        !self.finished
    }

    /// Takes a stream event, the cancel flag having been read just before
    /// it, and returns the chunks to send to the client.
    pub fn on_stream_event(&mut self, event: LLMStreamEvent, cancelled: bool) -> (r: Vec<Chunk>)
        ensures
            final(self)@ == old(self)@.after_event(event@, cancelled),
            chunk_views(r@) == old(self)@.chunks_for(event@, cancelled),
    {
        let mut chunks: Vec<Chunk> = Vec::new();
        assert(chunk_views(chunks@) =~= Seq::empty());
        if self.finished {
            return chunks;
        }
        if cancelled {
            self.stop_reason = StopReason::Cancelled;
            self.finished = true;
            return chunks;
        }
        match event {
            LLMStreamEvent::Token { delta } => {
                if !delta.as_str().is_empty() {
                    self.assistant_message.append(delta.as_str());
                    chunks.push(Chunk::Message(delta));
                    assert(chunk_views(chunks@) =~= seq![ChunkV::Message(delta@)]);
                } else {
                    assert(self.assistant_message@ + delta@ =~= self.assistant_message@);
                }
            },
            LLMStreamEvent::Reasoning { delta } => {
                if !delta.as_str().is_empty() {
                    chunks.push(Chunk::Thought(delta));
                    assert(chunk_views(chunks@) =~= seq![ChunkV::Thought(delta@)]);
                }
            },
            LLMStreamEvent::Completed { response } => {
                let fresh = self.assistant_message.as_str().is_empty();
                push_response_chunks(&mut chunks, &response, fresh);
                if fresh {
                    if let Some(content) = &response.content {
                        self.assistant_message = content.clone();
                    }
                }
                self.stop_reason = stop_reason_from_finish(&response.finish_reason);
                self.finished = true;
            },
        }
        chunks
    }

    /// Takes a complete response. Where it asks for tools and tools may
    /// be used, the assistant's message with its calls joins the history
    /// and the calls are to be run; else its chunks are to be sent and the
    /// turn ends.
    pub fn on_response(
        &mut self,
        session: &mut SessionData,
        response: LLMResponse,
        tools_allowed: bool,
    ) -> (r: ResponseStep)
        ensures
            TurnStateV::wants_tools(response@, tools_allowed) ==> {
                &&& final(self)@ == old(self)@
                &&& r@ == ResponseStepV::RunTools(response@.tool_calls->0)
                &&& final(session)@ == (SessionDataV {
                    messages: old(session)@.messages.push(
                        MessageV {
                            role: MessageRole::Assistant,
                            content: match response@.content {
                                Some(c) => c,
                                None => Seq::empty(),
                            },
                            tool_calls: response@.tool_calls,
                            tool_call_id: None,
                        },
                    ),
                    ..old(session)@
                })
            },
            !TurnStateV::wants_tools(response@, tools_allowed) ==> {
                &&& final(self)@ == old(self)@.after_response(response@)
                &&& r@ == ResponseStepV::Finish(response_chunks(response@, true))
                &&& final(session)@ == old(session)@
            },
    {
        let wants = tools_allowed && match &response.tool_calls {
            Some(calls) => calls.len() > 0,
            None => false,
        };
        if wants {
            let calls = match response.tool_calls {
                Some(calls) => calls,
                None => Vec::new(),
            };
            let content = match response.content {
                Some(c) => c,
                None => String::new(),
            };
            let recorded = crate::llm::provider::duplicate_tool_calls(&calls);
            session.push_message(Message::assistant_with_tools(content, recorded));
            return ResponseStep::RunTools(calls);
        }
        let mut chunks: Vec<Chunk> = Vec::new();
        push_response_chunks(&mut chunks, &response, true);
        if let Some(content) = &response.content {
            self.assistant_message = content.clone();
        }
        self.stop_reason = stop_reason_from_finish(&response.finish_reason);
        self.finished = true;
        ResponseStep::Finish(chunks)
    }

    /// Ends the turn: the answer joins the history unless the turn was
    /// cancelled or the answer is empty. Returns why the turn stopped.
    pub fn finalize_turn(self, session: &mut SessionData) -> (r: StopReason)
        ensures
            r == self@.stop_reason,
            final(session)@ == (SessionDataV {
                messages: self@.history_after(old(session)@.messages),
                ..old(session)@
            }),
    {
        if self.stop_reason != StopReason::Cancelled && !self.assistant_message.as_str().is_empty() {
            session.push_message(Message::assistant(self.assistant_message));
        }
        self.stop_reason
    }
}

/// Puts the answers to tool calls into the history, in order.
pub fn record_tool_results(session: &mut SessionData, results: Vec<ToolCallResult>)
    ensures
        final(session)@ == (SessionDataV {
            messages: with_results_from(old(session)@.messages, result_views(results@), 0),
            ..old(session)@
        }),
{
    let ghost views = result_views(results@);
    let ghost goal = with_results_from(session@.messages, views, 0);
    let mut i: usize = 0;
    while i < results.len()
        invariant
            i <= results.len(),
            views == result_views(results@),
            with_results_from(session@.messages, views, i as int) == goal,
            session@.tool_notice_sent == old(session)@.tool_notice_sent,
            session@.cancel_flag == old(session)@.cancel_flag,
        decreases results.len() - i,
    {
        session.push_message(
            Message::tool_response(
                results[i].tool_call_id.clone(),
                results[i].llm_response.clone(),
            ),
        );
        i += 1;
    }
}

/// Model of a [`ToolCallNotice`].
pub struct ToolCallNoticeV {
    pub id: Seq<char>,
    pub title: Seq<char>,
    pub kind: ToolKind,
    pub status: ToolCallStatus,
    pub raw_input: Option<JsonV>,
}

/// The first word to the client about a tool call.
#[derive(Debug)]
pub struct ToolCallNotice {
    pub id: String,
    pub title: String,
    pub kind: ToolKind,
    pub status: ToolCallStatus,
    pub raw_input: Option<Json>,
}

impl View for ToolCallNotice {
    type V = ToolCallNoticeV;

    open spec fn view(&self) -> ToolCallNoticeV {
        ToolCallNoticeV {
            id: self.id@,
            title: self.title@,
            kind: self.kind,
            status: self.status,
            raw_input: crate::llm::provider::opt_json_view(self.raw_input),
        }
    }
}

/// Model of a [`ToolCallUpdateNotice`].
pub struct ToolCallUpdateNoticeV {
    pub id: Seq<char>,
    pub status: Option<ToolCallStatus>,
    pub content: Option<Seq<Seq<char>>>,
    pub raw_output: Option<JsonV>,
}

/// A later word to the client about a tool call: what has changed.
#[derive(Debug)]
pub struct ToolCallUpdateNotice {
    pub id: String,
    pub status: Option<ToolCallStatus>,
    pub content: Option<Vec<String>>,
    pub raw_output: Option<Json>,
}

impl View for ToolCallUpdateNotice {
    type V = ToolCallUpdateNoticeV;

    open spec fn view(&self) -> ToolCallUpdateNoticeV {
        ToolCallUpdateNoticeV {
            id: self.id@,
            status: self.status,
            content: crate::tool_policy::opt_text_views(self.content),
            raw_output: crate::llm::provider::opt_json_view(self.raw_output),
        }
    }
}

/// Model of a [`ToolCallPlan`].
pub struct ToolCallPlanV {
    pub notice: ToolCallNoticeV,
    pub name: Seq<char>,
    pub tool: Option<SupportedTool>,
    pub args: Result<JsonV, Seq<char>>,
}

/// What is known of a tool call before any work: the notice for the
/// client, the tool behind its name, and its arguments as parsed.
#[derive(Debug)]
pub struct ToolCallPlan {
    pub notice: ToolCallNotice,
    pub name: String,
    pub tool: Option<SupportedTool>,
    pub args: Result<Json, String>,
}

impl View for ToolCallPlan {
    type V = ToolCallPlanV;

    open spec fn view(&self) -> ToolCallPlanV {
        ToolCallPlanV {
            notice: self.notice@,
            name: self.name@,
            tool: self.tool,
            args: crate::tools::registry::policy::gate_view(self.args),
        }
    }
}

/// The plan of a tool call: its arguments are parsed, its title names the
/// file where the tool is known and the arguments parse, the tool's own
/// title where only the tool is known, and the call as unsupported where
/// it is not; the notice is pending and carries the parsed arguments.
pub open spec fn tool_call_plan(registry: ToolRegistryV, call: ToolCallV) -> ToolCallPlanV {
    let tool = registry.lookup(call.name);
    let args = parsed_json(call.arguments);
    ToolCallPlanV {
        notice: ToolCallNoticeV {
            id: call.id,
            title: match tool {
                Some(_) => match args {
                    Ok(a) => read_file_title(a),
                    Err(_) => "Read file"@,
                },
                None => call.name + " (unsupported)"@,
            },
            kind: match tool {
                Some(_) => ToolKind::Fetch,
                None => ToolKind::Other,
            },
            status: ToolCallStatus::Pending,
            raw_input: match args {
                Ok(a) => Some(a),
                Err(_) => None,
            },
        },
        name: call.name,
        tool,
        args,
    }
}

impl ToolCallPlanV {
    /// Whether the user is asked before the call: the tool is known and
    /// the arguments parse.
    pub open spec fn needs_permission(self) -> bool {
        self.tool is Some && self.args is Ok
    }

    /// What stands in the way of the call after the user was asked, if
    /// anything.
    pub open spec fn verdict(self, outcome: PermissionOutcomeV) -> Option<ToolExecutionReportV> {
        if self.needs_permission() {
            permission_verdict(TOOL_READ_FILE@, outcome)
        } else {
            None
        }
    }

    /// Whether the client is told that the call is in progress: the tool
    /// is known and nothing stands in the way.
    pub open spec fn announces_progress(self, outcome: PermissionOutcomeV) -> bool {
        self.tool is Some && self.verdict(outcome) is None
    }

    /// The report of a call that is not run: what stood in the way, or
    /// that the tool is not supported, or that the arguments are no JSON.
    /// A call that is run has none yet.
    pub open spec fn report_without_run(self, outcome: PermissionOutcomeV) -> Option<
        ToolExecutionReportV,
    > {
        match self.verdict(outcome) {
            Some(report) => Some(report),
            None => match self.args {
                Err(e) => Some(
                    ToolExecutionReportV::failure(self.name, "Invalid JSON arguments: "@ + e),
                ),
                Ok(_) => match self.tool {
                    None => Some(ToolExecutionReportV::failure(self.name, "Unsupported tool"@)),
                    Some(_) => None,
                },
            },
        }
    }
}

/// Model of a [`ToolCallStep`].
#[allow(inconsistent_fields)]
pub enum ToolCallStepV {
    Execute { progress: ToolCallUpdateNoticeV, tool: SupportedTool, args: JsonV },
    Done { progress: Option<ToolCallUpdateNoticeV>, report: ToolExecutionReportV },
}

/// What to do about a tool call once the user was asked: run the tool, or
/// report why it is not run. Either way `progress`, where there is one,
/// goes to the client first.
#[derive(Debug)]
#[allow(inconsistent_fields)]
pub enum ToolCallStep {
    Execute { progress: ToolCallUpdateNotice, tool: SupportedTool, args: Json },
    Done { progress: Option<ToolCallUpdateNotice>, report: ToolExecutionReport },
}

impl View for ToolCallStep {
    type V = ToolCallStepV;

    open spec fn view(&self) -> ToolCallStepV {
        match self {
            ToolCallStep::Execute { progress, tool, args } => ToolCallStepV::Execute {
                progress: progress@,
                tool: *tool,
                args: args@,
            },
            ToolCallStep::Done { progress, report } => ToolCallStepV::Done {
                progress: match progress {
                    Some(p) => Some(p@),
                    None => None,
                },
                report: report@,
            },
        }
    }
}

/// The word that a call is in progress.
pub open spec fn progress_notice(id: Seq<char>) -> ToolCallUpdateNoticeV {
    ToolCallUpdateNoticeV {
        id,
        status: Some(ToolCallStatus::InProgress),
        content: None,
        raw_output: None,
    }
}

/// The word that a call is over: its status, what to show unless that is
/// nothing, and the raw envelope.
pub open spec fn completion_notice(id: Seq<char>, report: ToolExecutionReportV)
    -> ToolCallUpdateNoticeV {
    ToolCallUpdateNoticeV {
        id,
        status: Some(report.status),
        content: if report.content.len() > 0 {
            Some(report.content)
        } else {
            None
        },
        raw_output: report.raw_output,
    }
}

/// What to do about a tool call once the user was asked.
pub open spec fn tool_call_step(plan: ToolCallPlanV, outcome: PermissionOutcomeV) -> ToolCallStepV {
    let progress = if plan.announces_progress(outcome) {
        Some(progress_notice(plan.notice.id))
    } else {
        None
    };
    match plan.report_without_run(outcome) {
        Some(report) => ToolCallStepV::Done { progress, report },
        None => ToolCallStepV::Execute {
            progress: progress_notice(plan.notice.id),
            tool: plan.tool->0,
            args: plan.args->Ok_0,
        },
    }
}

/// A tool is run only with the user's leave or where the request for it
/// never reached the client; a dismissed request and a denial, by the
/// option for it or by any option that is not known, end in a failed call
/// that is never run.
pub proof fn lemma_tool_runs_only_when_allowed(plan: ToolCallPlanV, outcome: PermissionOutcomeV)
    ensures
        tool_call_step(plan, outcome) is Execute ==> plan.needs_permission() && (outcome
            is Unreachable || outcome == PermissionOutcomeV::Selected(
            TOOL_PERMISSION_ALLOW_OPTION_ID@,
        )),
        plan.needs_permission() && outcome is Cancelled ==> tool_call_step(plan, outcome)
            == (ToolCallStepV::Done {
            progress: None,
            report: ToolExecutionReportV::failure(
                TOOL_READ_FILE@,
                TOOL_PERMISSION_CANCELLED_MESSAGE@,
            ),
        }),
        plan.needs_permission() && outcome is Selected && outcome->Selected_0
            != TOOL_PERMISSION_ALLOW_OPTION_ID@ ==> tool_call_step(plan, outcome)
            == (ToolCallStepV::Done {
            progress: None,
            report: ToolExecutionReportV::failure(TOOL_READ_FILE@, TOOL_PERMISSION_DENIED_MESSAGE@),
        }),
        tool_call_step(plan, outcome) is Done ==> tool_call_step(plan, outcome)->Done_report.status
            == ToolCallStatus::Failed,
{
}

fn make_progress_notice(id: &str) -> (r: ToolCallUpdateNotice)
    ensures
        r@ == progress_notice(id@),
{
    ToolCallUpdateNotice {
        id: id.to_owned(),
        status: Some(ToolCallStatus::InProgress),
        content: None,
        raw_output: None,
    }
}

/// Plans a tool call.
pub fn plan_tool_call(registry: &ToolRegistry, call: &ToolCall) -> (r: ToolCallPlan)
    ensures
        r@ == tool_call_plan(registry@, call@),
{
    let tool = registry.lookup(call.function.name.as_str());
    let args = Json::parse(call.function.arguments.as_str());
    let title = match tool {
        Some(tool) => match &args {
            Ok(a) => registry.render_title(tool, a),
            Err(_) => tool.default_title().to_owned(),
        },
        None => concat(call.function.name.as_str(), " (unsupported)"),
    };
    let kind = match tool {
        Some(tool) => tool.kind(),
        None => ToolKind::Other,
    };
    let raw_input = match &args {
        Ok(a) => Some(a.duplicate()),
        Err(_) => None,
    };
    ToolCallPlan {
        notice: ToolCallNotice {
            id: call.id.clone(),
            title,
            kind,
            status: ToolCallStatus::Pending,
            raw_input,
        },
        name: call.function.name.clone(),
        tool,
        args,
    }
}

impl ToolCallPlan {
    /// Whether the user is asked before the call.
    pub fn needs_permission(&self) -> (r: bool)
        ensures
            r == self@.needs_permission(),
    {
        self.tool.is_some() && self.args.is_ok()
    }

    /// Decides what to do about the call once the user was asked. Where
    /// the user is not asked, the outcome does not count.
    pub fn after_permission(self, outcome: &PermissionOutcome) -> (r: ToolCallStep)
        ensures
            r@ == tool_call_step(self@, outcome@),
    {
        let verdict = match self.tool {
            Some(tool) => if self.args.is_ok() {
                permission_report(tool, outcome)
            } else {
                None
            },
            None => None,
        };
        let announces = self.tool.is_some() && verdict.is_none();
        let progress = if announces {
            Some(make_progress_notice(self.notice.id.as_str()))
        } else {
            None
        };
        if let Some(report) = verdict {
            return ToolCallStep::Done { progress, report };
        }
        match self.args {
            Err(e) => {
                let message = concat("Invalid JSON arguments: ", e.as_str());
                ToolCallStep::Done {
                    progress,
                    report: ToolExecutionReport::failure(self.name.as_str(), message.as_str()),
                }
            },
            Ok(args) => match self.tool {
                None => ToolCallStep::Done {
                    progress,
                    report: ToolExecutionReport::failure(self.name.as_str(), "Unsupported tool"),
                },
                Some(tool) => ToolCallStep::Execute {
                    progress: make_progress_notice(self.notice.id.as_str()),
                    tool,
                    args,
                },
            },
        }
    }
}

/// The word to the client that a call is over.
pub fn completion_update(call_id: &str, report: &ToolExecutionReport) -> (r: ToolCallUpdateNotice)
    ensures
        r@ == completion_notice(call_id@, report@),
{
    let content = if report.content.len() > 0 {
        Some(crate::text::duplicate_texts(&report.content))
    } else {
        None
    };
    let raw_output = match &report.raw_output {
        Some(v) => Some(v.duplicate()),
        None => None,
    };
    ToolCallUpdateNotice { id: call_id.to_owned(), status: Some(report.status), content, raw_output }
}

/// What a finished call gives back to the model.
pub fn tool_call_result(call_id: &str, report: ToolExecutionReport) -> (r: ToolCallResult)
    ensures
        r@ == (ToolCallResultV { tool_call_id: call_id@, llm_response: report@.llm_response }),
{
    ToolCallResult { tool_call_id: call_id.to_owned(), llm_response: report.llm_response }
}

/// What the calls give back to the model where no client is connected:
/// each fails with the same message.
pub open spec fn unavailable_result(call: ToolCallV) -> ToolCallResultV {
    ToolCallResultV {
        tool_call_id: call.id,
        llm_response: json_text(failure_envelope(call.name, "Client connection unavailable"@)),
    }
}

/// Answers every call with the failure of a missing client.
pub fn unavailable_results(calls: &[ToolCall]) -> (r: Vec<ToolCallResult>)
    ensures
        r@.len() == calls@.len(),
        forall|i: int| 0 <= i < calls@.len() ==> (#[trigger] r@[i])@ == unavailable_result(calls@[i]@),
{
    let mut results: Vec<ToolCallResult> = Vec::new();
    let mut i: usize = 0;
    while i < calls.len()
        invariant
            i <= calls.len(),
            results@.len() == i,
            forall|k: int| 0 <= k < i ==> (#[trigger] results@[k])@ == unavailable_result(
                calls@[k]@,
            ),
        decreases calls.len() - i,
    {
        let report = ToolExecutionReport::failure(
            calls[i].function.name.as_str(),
            "Client connection unavailable",
        );
        results.push(
            ToolCallResult { tool_call_id: calls[i].id.clone(), llm_response: report.llm_response },
        );
        i += 1;
    }
    results
}

/// The report of a `read_file` whose arguments name no file.
pub fn run_read_file_failure(message: &str) -> (r: ToolExecutionReport)
    ensures
        r@ == ToolExecutionReportV::failure(TOOL_READ_FILE@, message@),
{
    ToolExecutionReport::failure(TOOL_READ_FILE, message)
}

/// The state of a turn after the tokens from index `i` on arrived, one by
/// one, with the cancel flag down.
pub open spec fn after_tokens(state: TurnStateV, deltas: Seq<Seq<char>>, i: int) -> TurnStateV
    decreases deltas.len() - i,
{
    if 0 <= i < deltas.len() {
        after_tokens(
            state.after_event(LLMStreamEventV::Token { delta: deltas[i] }, false),
            deltas,
            i + 1,
        )
    } else {
        state
    }
}

/// The chunks that go to the client while the tokens from index `i` on
/// arrive, one by one, with the cancel flag down.
pub open spec fn token_chunks(state: TurnStateV, deltas: Seq<Seq<char>>, i: int) -> Seq<ChunkV>
    decreases deltas.len() - i,
{
    if 0 <= i < deltas.len() {
        state.chunks_for(LLMStreamEventV::Token { delta: deltas[i] }, false) + token_chunks(
            state.after_event(LLMStreamEventV::Token { delta: deltas[i] }, false),
            deltas,
            i + 1,
        )
    } else {
        Seq::empty()
    }
}

/// The texts from index `i` on, one after another.
pub open spec fn text_from(deltas: Seq<Seq<char>>, i: int) -> Seq<char>
    decreases deltas.len() - i,
{
    if 0 <= i < deltas.len() {
        deltas[i] + text_from(deltas, i + 1)
    } else {
        Seq::empty()
    }
}

/// Tokens that arrive while a turn is under way go to the client as they
/// came, in order, and join the answer; the turn stays under way.
pub proof fn lemma_tokens_are_sent_as_they_came(
    state: TurnStateV,
    deltas: Seq<Seq<char>>,
    i: int,
)
    requires
        !state.finished,
        0 <= i <= deltas.len(),
        forall|k: int| 0 <= k < deltas.len() ==> (#[trigger] deltas[k]).len() > 0,
    ensures
        token_chunks(state, deltas, i) == Seq::new(
            (deltas.len() - i) as nat,
            |k: int| ChunkV::Message(deltas[i + k]),
        ),
        after_tokens(state, deltas, i).assistant_message == state.assistant_message + text_from(
            deltas,
            i,
        ),
        !after_tokens(state, deltas, i).finished,
        after_tokens(state, deltas, i).stop_reason == state.stop_reason,
    decreases deltas.len() - i,
{
    if i < deltas.len() {
        let next = state.after_event(LLMStreamEventV::Token { delta: deltas[i] }, false);
        lemma_tokens_are_sent_as_they_came(next, deltas, i + 1);
        assert(state.chunks_for(LLMStreamEventV::Token { delta: deltas[i] }, false) == seq![
            ChunkV::Message(deltas[i]),
        ]);
        assert(token_chunks(state, deltas, i) =~= Seq::new(
            (deltas.len() - i) as nat,
            |k: int| ChunkV::Message(deltas[i + k]),
        ));
        assert(state.assistant_message + deltas[i] + text_from(deltas, i + 1)
            =~= state.assistant_message + text_from(deltas, i));
    } else {
        assert(token_chunks(state, deltas, i) =~= Seq::new(
            (deltas.len() - i) as nat,
            |k: int| ChunkV::Message(deltas[i + k]),
        ));
        assert(state.assistant_message + text_from(deltas, i) =~= state.assistant_message);
    }
}

/// A plain streamed turn, whatever its length: the tokens go to the
/// client in order, so that what the client has is the model's text; the
/// completed response that stops adds no text of its own, ends the turn
/// as an ended turn, and the text joins the history as the assistant's
/// message.
pub proof fn lemma_plain_streamed_turn(
    deltas: Seq<Seq<char>>,
    response: LLMResponseV,
    messages: Seq<MessageV>,
)
    requires
        deltas.len() > 0,
        forall|k: int| 0 <= k < deltas.len() ==> (#[trigger] deltas[k]).len() > 0,
        response.finish_reason == FinishReasonV::Stop,
        response.reasoning is None,
    ensures
        token_chunks(TurnStateV::start(), deltas, 0) == Seq::new(
            deltas.len(),
            |k: int| ChunkV::Message(deltas[k]),
        ),
        ({
            let streamed = after_tokens(TurnStateV::start(), deltas, 0);
            let ended = streamed.after_event(LLMStreamEventV::Completed { response }, false);
            &&& streamed.chunks_for(LLMStreamEventV::Completed { response }, false).len() == 0
            &&& ended.finished
            &&& ended.stop_reason == StopReason::EndTurn
            &&& ended.assistant_message == text_from(deltas, 0)
            &&& ended.history_after(messages) == messages.push(
                MessageV::plain(MessageRole::Assistant, text_from(deltas, 0)),
            )
        }),
{
    lemma_tokens_are_sent_as_they_came(TurnStateV::start(), deltas, 0);
    assert(Seq::<char>::empty() + text_from(deltas, 0) =~= text_from(deltas, 0));
    assert(text_from(deltas, 0).len() > 0) by {
        assert(deltas[0].len() > 0);
    }
    assert(token_chunks(TurnStateV::start(), deltas, 0) =~= Seq::new(
        deltas.len(),
        |k: int| ChunkV::Message(deltas[k]),
    ));
}

} // verus!
