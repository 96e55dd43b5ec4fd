//! Names and limits shared across the core.

use vstd::prelude::*;

verus! {

/// Name of the tool that lists files.
pub const TOOL_LIST_FILES: &'static str = "list_files";

/// Name of the tool that searches file contents.
pub const TOOL_GREP_SEARCH: &'static str = "grep_search";

/// Name of the tool that reads a file.
pub const TOOL_READ_FILE: &'static str = "read_file";

/// Name of the tool that fetches a URL.
pub const TOOL_CURL: &'static str = "curl";

/// Token budget of a conversation when none is configured.
pub const DEFAULT_MAX_TOKENS: usize = 90_000;

/// Share of the budget, in percent, that trimming aims for.
pub const DEFAULT_TRIM_TO_PERCENT: u8 = 80;

/// Number of recent turns that trimming keeps.
pub const DEFAULT_PRESERVE_RECENT_TURNS: usize = 12;

/// Base address of the OpenRouter service.
pub const OPENROUTER_API_BASE: &'static str = "https://openrouter.ai/api/v1";

/// Model used when none is chosen.
pub const OPENROUTER_DEFAULT_MODEL: &'static str = "x-ai/grok-4-fast:free";

/// The model that is served by the response wire.
pub const OPENAI_GPT_5_CODEX: &'static str = "openai/gpt-5-codex";

/// Version shown in the header when none is given.
pub const PACKAGE_VERSION: &'static str = "0.1.0";

pub const HEADER_VERSION_PROMPT: &'static str = "> ";

pub const HEADER_VERSION_PREFIX: &'static str = "VT Code";

pub const HEADER_VERSION_LEFT_DELIMITER: &'static str = "(";

pub const HEADER_VERSION_RIGHT_DELIMITER: &'static str = ")";

pub const HEADER_MODE_INLINE: &'static str = "Inline session";

pub const HEADER_MODE_ALTERNATE: &'static str = "Alternate session";

pub const HEADER_MODE_AUTO: &'static str = "Auto session";

pub const HEADER_MODE_PRIMARY_SEPARATOR: &'static str = " | ";

pub const HEADER_MODE_SECONDARY_SEPARATOR: &'static str = " | ";

pub const HEADER_PROVIDER_PREFIX: &'static str = "Provider: ";

pub const HEADER_MODEL_PREFIX: &'static str = "Model: ";

pub const HEADER_REASONING_PREFIX: &'static str = "Reasoning effort: ";

pub const HEADER_TRUST_PREFIX: &'static str = "Trust: ";

pub const HEADER_TOOLS_PREFIX: &'static str = "Tools: ";

pub const HEADER_LANGUAGES_PREFIX: &'static str = "Languages: ";

pub const HEADER_MCP_PREFIX: &'static str = "MCP: ";

pub const HEADER_UNKNOWN_PLACEHOLDER: &'static str = "unavailable";

pub const HEADER_STATUS_LABEL: &'static str = "Status";

pub const HEADER_STATUS_ACTIVE: &'static str = "Active";

pub const HEADER_STATUS_PAUSED: &'static str = "Paused";

pub const HEADER_MESSAGES_LABEL: &'static str = "Messages";

pub const HEADER_INPUT_LABEL: &'static str = "Input";

pub const HEADER_INPUT_ENABLED: &'static str = "Enabled";

pub const HEADER_INPUT_DISABLED: &'static str = "Disabled";

pub const HEADER_META_SEPARATOR: &'static str = "   ";

pub const SUGGESTION_BLOCK_TITLE: &'static str = "Slash Commands";

pub const NAVIGATION_BLOCK_TITLE: &'static str = "Timeline";

pub const NAVIGATION_EMPTY_LABEL: &'static str = "Waiting for activity";

pub const NAVIGATION_INDEX_PREFIX: &'static str = "#";

pub const NAVIGATION_LABEL_AGENT: &'static str = "Agent";

pub const NAVIGATION_LABEL_ERROR: &'static str = "Error";

pub const NAVIGATION_LABEL_INFO: &'static str = "Info";

pub const NAVIGATION_LABEL_POLICY: &'static str = "Policy";

pub const NAVIGATION_LABEL_TOOL: &'static str = "Tool";

pub const NAVIGATION_LABEL_USER: &'static str = "User";

pub const NAVIGATION_LABEL_PTY: &'static str = "PTY";

/// Rows the header takes at least.
pub const INLINE_HEADER_HEIGHT: u16 = 4;

/// Rows the input takes.
pub const INLINE_INPUT_HEIGHT: u16 = 3;

/// Columns the transcript needs beside a navigation pane.
pub const INLINE_CONTENT_MIN_WIDTH: u16 = 48;

/// Columns a navigation pane needs.
pub const INLINE_NAVIGATION_MIN_WIDTH: u16 = 24;

/// Share of the width, in percent, that a navigation pane beside the
/// transcript takes.
pub const INLINE_NAVIGATION_PERCENT: u16 = 28;

/// Share of the height, in percent, that a navigation pane below the
/// transcript takes.
pub const INLINE_STACKED_NAVIGATION_PERCENT: u16 = 30;

/// Columns kept free at the right edge of the transcript.
pub const INLINE_SCROLLBAR_EDGE_PADDING: u16 = 1;

/// Most characters of a message shown in the navigation pane.
pub const INLINE_PREVIEW_MAX_CHARS: usize = 56;

pub const INLINE_PREVIEW_ELLIPSIS: &'static str = "…";

pub const INLINE_AGENT_QUOTE_PREFIX: &'static str = "";

pub const INLINE_AGENT_MESSAGE_LEFT_PADDING: &'static str = "  ";

pub const INLINE_USER_MESSAGE_DIVIDER_SYMBOL: &'static str = "─";

/// Most slash commands suggested at once.
pub const SLASH_SUGGESTION_LIMIT: usize = 6;

/// Rows of an inline viewport when the terminal gives none.
pub const DEFAULT_INLINE_VIEWPORT_ROWS: u16 = 16;

/// Most characters of a tool response that go back to the model.
pub const MAX_TOOL_RESPONSE_CHARS: usize = 32_768;

} // verus!
