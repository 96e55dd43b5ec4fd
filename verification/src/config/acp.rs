//! Settings of the bridge to external clients.

use crate::text::{
    ascii_lowercase, ascii_lowercase_chars, chars_eq, chars_of, trim_chars, trim_spec,
};
use vstd::prelude::*;

verus! {

/// What a switch in the environment says: `1`, `true`, `yes` and `on` turn
/// it on, `0`, `false`, `no` and `off` turn it off, in any case and with
/// any whitespace around; anything else, or nothing, leaves the default.
pub open spec fn env_bool(value: Option<Seq<char>>, default: bool) -> bool {
    match value {
        None => default,
        Some(text) => {
            let word = ascii_lowercase(trim_spec(text));
            if word == "1"@ || word == "true"@ || word == "yes"@ || word == "on"@ {
                true
            } else if word == "0"@ || word == "false"@ || word == "no"@ || word == "off"@ {
                false
            } else {
                default
            }
        },
    }
}

fn is_word(word: &Vec<char>, expected: &str) -> (r: bool)
    ensures
        r == (word@ == expected@),
{
    let e = chars_of(expected);
    chars_eq(word.as_slice(), e.as_slice())
}

/// Reads a switch from the value of an environment variable.
pub fn parse_env_bool(value: Option<&str>, default: bool) -> (r: bool)
    ensures
        r == env_bool(
            match value {
                Some(v) => Some(v@),
                None => None,
            },
            default,
        ),
{
    let text = match value {
        Some(text) => text,
        None => {
            return default;
        },
    };
    let chars = chars_of(text);
    let trimmed = trim_chars(chars.as_slice());
    let word = ascii_lowercase_chars(trimmed.as_slice());
    if is_word(&word, "1") || is_word(&word, "true") || is_word(&word, "yes") || is_word(
        &word,
        "on",
    ) {
        true
    } else if is_word(&word, "0") || is_word(&word, "false") || is_word(&word, "no") || is_word(
        &word,
        "off",
    ) {
        false
    } else {
        default
    }
}

/// Whether the bridge is on: off unless the environment turns it on.
pub fn default_enabled(value: Option<&str>) -> (r: bool)
    ensures
        r == env_bool(
            match value {
                Some(v) => Some(v@),
                None => None,
            },
            false,
        ),
{
    parse_env_bool(value, false)
}

/// Whether the editor integration is on: as the bridge is, unless the
/// environment says otherwise.
pub fn default_zed_enabled(value: Option<&str>, bridge_enabled: bool) -> (r: bool)
    ensures
        r == env_bool(
            match value {
                Some(v) => Some(v@),
                None => None,
            },
            bridge_enabled,
        ),
{
    parse_env_bool(value, bridge_enabled)
}

/// Whether the `read_file` bridge is on: on unless the environment turns it
/// off.
pub fn default_zed_tools_read_file_enabled(value: Option<&str>) -> (r: bool)
    ensures
        r == env_bool(
            match value {
                Some(v) => Some(v@),
                None => None,
            },
            true,
        ),
{
    parse_env_bool(value, true)
}

/// Whether the `list_files` bridge is on: on unless the environment turns
/// it off.
pub fn default_zed_tools_list_files_enabled(value: Option<&str>) -> (r: bool)
    ensures
        r == env_bool(
            match value {
                Some(v) => Some(v@),
                None => None,
            },
            true,
        ),
{
    parse_env_bool(value, true)
}

/// The transport used when none is configured.
pub fn default_transport() -> (r: AgentClientProtocolTransport)
    ensures
        r == AgentClientProtocolTransport::Stdio,
{
    AgentClientProtocolTransport::Stdio
}

/// Transport options supported by the bridge.
#[derive(Debug, Clone, Copy, PartialEq, Eq, Structural)]
pub enum AgentClientProtocolTransport {
    /// Communicate over standard input and output of a spawned process.
    Stdio,
}

impl Default for AgentClientProtocolTransport {
    fn default() -> (r: Self)
        ensures
            r == AgentClientProtocolTransport::Stdio,
    {
        AgentClientProtocolTransport::Stdio
    }
}

/// Tool switches of the editor bridge.
#[derive(Debug, Clone, Copy, PartialEq, Eq, Structural)]
pub struct AgentClientProtocolZedToolsConfig {
    /// Whether the `read_file` function is bridged.
    pub read_file: bool,
    /// Whether the `list_files` function is bridged.
    pub list_files: bool,
}

impl AgentClientProtocolZedToolsConfig {
    /// The switches as the two environment values set them.
    pub fn from_env(read_file: Option<&str>, list_files: Option<&str>) -> (r: Self)
        ensures
            r.read_file == env_bool(
                match read_file {
                    Some(v) => Some(v@),
                    None => None,
                },
                true,
            ),
            r.list_files == env_bool(
                match list_files {
                    Some(v) => Some(v@),
                    None => None,
                },
                true,
            ),
    {
        AgentClientProtocolZedToolsConfig {
            read_file: default_zed_tools_read_file_enabled(read_file),
            list_files: default_zed_tools_list_files_enabled(list_files),
        }
    }
}

impl Default for AgentClientProtocolZedToolsConfig {
    /// Both tools bridged, as with an empty environment.
    fn default() -> (r: Self)
        ensures
            r.read_file,
            r.list_files,
    {
        AgentClientProtocolZedToolsConfig { read_file: true, list_files: true }
    }
}

/// Settings of the editor integration.
#[derive(Debug, Clone, Copy, PartialEq, Eq, Structural)]
pub struct AgentClientProtocolZedConfig {
    /// Whether the integration is on.
    pub enabled: bool,
    /// Transport used to talk to the client.
    pub transport: AgentClientProtocolTransport,
    /// Tool switches.
    pub tools: AgentClientProtocolZedToolsConfig,
}

impl Default for AgentClientProtocolZedConfig {
    /// Off, over standard input and output, with both tools bridged, as
    /// with an empty environment.
    fn default() -> (r: Self)
        ensures
            !r.enabled,
            r.transport == AgentClientProtocolTransport::Stdio,
            r.tools.read_file,
            r.tools.list_files,
    {
        AgentClientProtocolZedConfig {
            enabled: false,
            transport: AgentClientProtocolTransport::Stdio,
            tools: AgentClientProtocolZedToolsConfig { read_file: true, list_files: true },
        }
    }
}

/// Settings of the bridge.
#[derive(Debug, Clone, Copy, PartialEq, Eq, Structural)]
pub struct AgentClientProtocolConfig {
    /// Whether the bridge is on at all.
    pub enabled: bool,
    /// Settings of the editor integration.
    pub zed: AgentClientProtocolZedConfig,
}

impl AgentClientProtocolConfig {
    /// The settings as four environment values set them: the bridge switch,
    /// the editor switch, and the two tool switches.
    pub fn from_env(
        enabled: Option<&str>,
        zed_enabled: Option<&str>,
        read_file: Option<&str>,
        list_files: Option<&str>,
    ) -> (r: Self)
        ensures
            r.enabled == env_bool(
                match enabled {
                    Some(v) => Some(v@),
                    None => None,
                },
                false,
            ),
            r.zed.enabled == env_bool(
                match zed_enabled {
                    Some(v) => Some(v@),
                    None => None,
                },
                r.enabled,
            ),
            r.zed.transport == AgentClientProtocolTransport::Stdio,
            r.zed.tools.read_file == env_bool(
                match read_file {
                    Some(v) => Some(v@),
                    None => None,
                },
                true,
            ),
            r.zed.tools.list_files == env_bool(
                match list_files {
                    Some(v) => Some(v@),
                    None => None,
                },
                true,
            ),
    {
        let bridge = default_enabled(enabled);
        AgentClientProtocolConfig {
            enabled: bridge,
            zed: AgentClientProtocolZedConfig {
                enabled: default_zed_enabled(zed_enabled, bridge),
                transport: default_transport(),
                tools: AgentClientProtocolZedToolsConfig::from_env(read_file, list_files),
            },
        }
    }
}

impl Default for AgentClientProtocolConfig {
    /// The settings of an empty environment: the bridge off, the editor
    /// integration off, standard input and output, both tools bridged.
    fn default() -> (r: Self)
        ensures
            !r.enabled,
            !r.zed.enabled,
            r.zed.transport == AgentClientProtocolTransport::Stdio,
            r.zed.tools.read_file,
            r.zed.tools.list_files,
    {
        AgentClientProtocolConfig {
            enabled: false,
            zed: AgentClientProtocolZedConfig {
                enabled: false,
                transport: AgentClientProtocolTransport::Stdio,
                tools: AgentClientProtocolZedToolsConfig { read_file: true, list_files: true },
            },
        }
    }
}

} // verus!
