//! The policy gate of the tool registry.

use crate::config::constants::{TOOL_CURL, TOOL_GREP_SEARCH, TOOL_LIST_FILES, TOOL_READ_FILE};
use crate::json::{Json, JsonV};
use crate::text::{
    chars_of, decimal, decimal_spec, eq_ignoring_ascii_case, has_text, join, joined, lowercase_of,
    str_eq, str_eq_ignore_ascii_case, strictly_sorted, text_views,
};
use crate::tool_policy::{
    ToolConstraints, ToolConstraintsV, ToolPolicy, ToolPolicyManager, ToolPolicyManagerV,
};
use crate::uri::{parsed_url, UrlParts, UrlPartsV};
use vstd::prelude::*;

verus! {

/// The note left in arguments whose `key` was cut down to `cap`.
pub open spec fn cap_note(key: Seq<char>, cap: usize, suffix: Seq<char>) -> Seq<char> {
    "Capped "@ + key + " to "@ + decimal_spec(cap as nat) + suffix
}

/// The arguments with the number under `key` held to `cap`: a larger
/// request is replaced by the cap and a note is left under `_policy_note`;
/// anything else stays as it is.
pub open spec fn capped(args: JsonV, key: Seq<char>, cap: Option<usize>, suffix: Seq<char>)
    -> JsonV {
    match cap {
        None => args,
        Some(cap) => match args.get_u64(key) {
            Some(requested) => if requested > cap {
                args.with(key, JsonV::PosInt(cap as int)).with(
                    "_policy_note"@,
                    JsonV::Str(cap_note(key, cap, suffix)),
                )
            } else {
                args
            },
            None => args,
        },
    }
}

/// The arguments with the default response format put in where none is
/// given.
pub open spec fn with_default_format(c: ToolConstraintsV, args: JsonV) -> JsonV {
    match c.default_response_format {
        Some(format) => if args.get("response_format"@) is None {
            args.with("response_format"@, JsonV::Str(format))
        } else {
            args
        },
        None => args,
    }
}

/// The complaint about the `mode` of the arguments, if it is one the
/// limits do not allow.
pub open spec fn mode_violation(c: ToolConstraintsV, name: Seq<char>, args: JsonV) -> Option<
    Seq<char>,
> {
    match c.allowed_modes {
        Some(allowed) => match args.get_str("mode"@) {
            Some(mode) => if !has_text(allowed, mode) {
                Some(
                    "Mode '"@ + mode + "' not allowed by policy for '"@ + name + "'. Allowed: "@
                        + joined(allowed, ", "@),
                )
            } else {
                None
            },
            None => None,
        },
        None => None,
    }
}

/// Whether a lower-case host falls under a denied pattern: a pattern that
/// begins with a dot matches every host that ends in it; any other pattern
/// matches the host itself and every host that ends in a dot and the
/// pattern.
pub open spec fn host_matches(host_lower: Seq<char>, pattern: Seq<char>) -> bool {
    let normal = lowercase_of(pattern);
    if normal.len() > 0 && normal[0] == '.' {
        normal.is_suffix_of(host_lower)
    } else {
        host_lower == normal || (seq!['.'] + normal).is_suffix_of(host_lower)
    }
}

/// Whether one of the first `n` denied patterns matches the host.
pub open spec fn host_blocked_within(denied: Seq<Seq<char>>, host: Seq<char>, n: int) -> bool {
    exists|i: int|
        0 <= i < n && i < denied.len() && host_matches(lowercase_of(host), #[trigger] denied[i])
}

/// Whether a denied pattern matches the host.
pub open spec fn host_blocked(denied: Seq<Seq<char>>, host: Seq<char>) -> bool {
    host_blocked_within(denied, host, denied.len() as int)
}

/// Whether one of the first `n` allowed schemes is the given one, but for
/// the case of letters.
pub open spec fn scheme_allowed_within(allowed: Seq<Seq<char>>, scheme: Seq<char>, n: int)
    -> bool {
    exists|i: int|
        0 <= i < n && i < allowed.len() && eq_ignoring_ascii_case(#[trigger] allowed[i], scheme)
}

/// Whether the scheme is an allowed one, but for the case of letters.
pub open spec fn scheme_allowed(allowed: Seq<Seq<char>>, scheme: Seq<char>) -> bool {
    scheme_allowed_within(allowed, scheme, allowed.len() as int)
}

/// The complaint about a URL, if there is one: it does not parse, its
/// scheme is not an allowed one, or its host is denied.
pub open spec fn url_violation(
    c: ToolConstraintsV,
    url: Seq<char>,
    parsed: Result<UrlPartsV, Seq<char>>,
) -> Option<Seq<char>> {
    match parsed {
        Err(detail) => Some("Invalid URL '"@ + url + "': "@ + detail),
        Ok(parts) => if c.allowed_url_schemes is Some && !scheme_allowed(
            c.allowed_url_schemes->0,
            parts.scheme,
        ) {
            Some(
                "Scheme '"@ + parts.scheme + "' is not allowed for curl tool. Allowed schemes: "@
                    + joined(c.allowed_url_schemes->0, ", "@),
            )
        } else if c.denied_url_hosts is Some && parts.host is Some && host_blocked(
            c.denied_url_hosts->0,
            parts.host->0,
        ) {
            Some("URL host '"@ + parts.host->0 + "' is blocked by policy"@)
        } else {
            None
        },
    }
}

/// What the limits make of the arguments of the tool `name`: the
/// arguments to run with, or the complaint that stops the call.
pub open spec fn constrained_args(c: ToolConstraintsV, name: Seq<char>, args: JsonV) -> Result<
    JsonV,
    Seq<char>,
> {
    if !(args is Object) {
        Err("tool arguments must be an object"@)
    } else {
        let a1 = with_default_format(c, args);
        match mode_violation(c, name, a1) {
            Some(message) => Err(message),
            None => if name == TOOL_LIST_FILES@ {
                Ok(capped(a1, "max_items"@, c.max_items_per_call, " by policy"@))
            } else if name == TOOL_GREP_SEARCH@ {
                Ok(capped(a1, "max_results"@, c.max_results_per_call, " by policy"@))
            } else if name == TOOL_READ_FILE@ {
                Ok(capped(a1, "max_bytes"@, c.max_bytes_per_read, " by policy"@))
            } else if name == TOOL_CURL@ {
                let a2 = capped(a1, "max_bytes"@, c.max_response_bytes, " bytes by policy"@);
                match a2.get_str("url"@) {
                    None => Err("curl tool requires a 'url' parameter"@),
                    Some(url) => match url_violation(c, url, parsed_url(url)) {
                        Some(message) => Err(message),
                        None => Ok(a2),
                    },
                }
            } else {
                Ok(a1)
            },
        }
    }
}

/// What the policy gate makes of a call: arguments that are no object
/// are refused for every tool; an object for a tool without limits passes
/// as it is.
pub open spec fn gated_args(manager: Option<ToolPolicyManagerV>, name: Seq<char>, args: JsonV)
    -> Result<JsonV, Seq<char>> {
    if !(args is Object) {
        Err("tool arguments must be an object"@)
    } else {
        match manager {
            None => Ok(args),
            Some(m) => match m.constraints_of(name) {
                None => Ok(args),
                Some(c) => constrained_args(c, name, args),
            },
        }
    }
}

/// A request over the cap comes back as the cap, with a note; a request
/// within the cap, or none, comes back unchanged and without a note.
pub proof fn lemma_cap_round_trip(args: JsonV, key: Seq<char>, cap: usize, suffix: Seq<char>)
    requires
        args.is_record(),
        key != "_policy_note"@,
    ensures
        args.get_u64(key) is Some && args.get_u64(key)->0 > cap ==> capped(
            args,
            key,
            Some(cap),
            suffix,
        ).get(key) == Some(JsonV::PosInt(cap as int)) && capped(args, key, Some(cap), suffix).get(
            "_policy_note"@,
        ) == Some(JsonV::Str(cap_note(key, cap, suffix))),
        !(args.get_u64(key) is Some && args.get_u64(key)->0 > cap) ==> capped(
            args,
            key,
            Some(cap),
            suffix,
        ) == args,
        capped(args, key, Some(cap), suffix).is_record(),
{
    let with_cap = args.with(key, JsonV::PosInt(cap as int));
    crate::json::lemma_with_then_get(args, key, JsonV::PosInt(cap as int), "_policy_note"@);
    crate::json::lemma_with_then_get(
        with_cap,
        "_policy_note"@,
        JsonV::Str(cap_note(key, cap, suffix)),
        key,
    );
}

/// The caps of the four capped tools hold: for `list_files`,
/// `grep_search`, `read_file` and `curl`, a request over the cap comes back
/// as the cap, and a request within the cap passes unchanged, without a
/// note.
pub proof fn lemma_policy_clamping(args: JsonV, cap: usize)
    requires
        args.is_record(),
    ensures
        forall|key: Seq<char>, suffix: Seq<char>|
            key == "max_items"@ || key == "max_results"@ || key == "max_bytes"@ ==> {
                let out = #[trigger] capped(args, key, Some(cap), suffix);
                &&& (args.get_u64(key) is Some && args.get_u64(key)->0 > cap ==> out.get(key)
                    == Some(JsonV::PosInt(cap as int)))
                &&& (!(args.get_u64(key) is Some && args.get_u64(key)->0 > cap) ==> out == args)
            },
{
    reveal_strlit("max_items");
    reveal_strlit("max_results");
    reveal_strlit("max_bytes");
    reveal_strlit("_policy_note");
    assert("max_items"@.len() == 9);
    assert("max_results"@.len() == 11);
    assert("max_bytes"@.len() == 9);
    assert("_policy_note"@.len() == 12);
    assert forall|key: Seq<char>, suffix: Seq<char>|
        key == "max_items"@ || key == "max_results"@ || key == "max_bytes"@ implies {
            let out = #[trigger] capped(args, key, Some(cap), suffix);
            &&& (args.get_u64(key) is Some && args.get_u64(key)->0 > cap ==> out.get(key) == Some(
                JsonV::PosInt(cap as int),
            ))
            &&& (!(args.get_u64(key) is Some && args.get_u64(key)->0 > cap) ==> out == args)
        } by {
        lemma_cap_round_trip(args, key, cap, suffix);
    }
}

fn apply_cap(args: Json, key: &str, cap: Option<usize>, suffix: &str) -> (r: Json)
    ensures
        r@ == capped(args@, key@, cap, suffix@),
{
    let cap = match cap {
        Some(cap) => cap,
        None => {
            return args;
        },
    };
    let requested = match args.get_u64(key) {
        Some(requested) => requested,
        None => {
            return args;
        },
    };
    if requested > cap as u64 {
        let mut note = "Capped ".to_owned();
        note.append(key);
        note.append(" to ");
        note.append(decimal(cap as u64).as_str());
        note.append(suffix);
        let limited = args.with(key, Json::uint(cap as u64));
        limited.with("_policy_note", Json::Str(note))
    } else {
        args
    }
}

fn check_has_text(items: &Vec<String>, text: &str) -> (r: bool)
    ensures
        r == has_text(text_views(items@), text@),
{
    let ghost views = text_views(items@);
    let mut i: usize = 0;
    while i < items.len()
        invariant
            i <= items.len(),
            views == text_views(items@),
            forall|k: int| 0 <= k < i ==> views[k] != text@,
        decreases items.len() - i,
    {
        if str_eq(items[i].as_str(), text) {
            assert(views[i as int] == text@);
            return true;
        }
        i += 1;
    }
    false
}

fn check_mode(c: &ToolConstraints, name: &str, args: &Json) -> (r: Option<String>)
    ensures
        crate::llm::provider::opt_text(r) == mode_violation(c@, name@, args@),
{
    let allowed = match &c.allowed_modes {
        Some(allowed) => allowed,
        None => {
            return None;
        },
    };
    let mode = match args.get_str("mode") {
        Some(mode) => mode,
        None => {
            return None;
        },
    };
    if check_has_text(allowed, mode) {
        return None;
    }
    let mut message = "Mode '".to_owned();
    message.append(mode);
    message.append("' not allowed by policy for '");
    message.append(name);
    message.append("'. Allowed: ");
    message.append(join(allowed, ", ").as_str());
    Some(message)
}

fn check_scheme_allowed(allowed: &Vec<String>, scheme: &str) -> (r: bool)
    ensures
        r == scheme_allowed(text_views(allowed@), scheme@),
{
    let ghost views = text_views(allowed@);
    let mut i: usize = 0;
    while i < allowed.len()
        invariant
            i <= allowed.len(),
            views == text_views(allowed@),
            !scheme_allowed_within(views, scheme@, i as int),
        decreases allowed.len() - i,
    {
        if str_eq_ignore_ascii_case(allowed[i].as_str(), scheme) {
            assert(eq_ignoring_ascii_case(views[i as int], scheme@));
            return true;
        }
        i += 1;
    }
    false
}

fn check_host_matches(host_lower: &str, pattern: &str) -> (r: bool)
    ensures
        r == host_matches(host_lower@, pattern@),
{
    let normal = pattern.to_lowercase();
    let n = chars_of(normal.as_str());
    let h = chars_of(host_lower);
    if n.len() > 0 && n[0] == '.' {
        crate::text::ends_with(h.as_slice(), n.as_slice())
    } else {
        if crate::text::chars_eq(h.as_slice(), n.as_slice()) {
            return true;
        }
        let mut dotted: Vec<char> = Vec::new();
        dotted.push('.');
        crate::text::extend_chars(&mut dotted, n.as_slice());
        assert(dotted@ =~= seq!['.'] + n@);
        crate::text::ends_with(h.as_slice(), dotted.as_slice())
    }
}

fn check_host_blocked(denied: &Vec<String>, host: &str) -> (r: bool)
    ensures
        r == host_blocked(text_views(denied@), host@),
{
    let lowered = host.to_lowercase();
    let ghost views = text_views(denied@);
    let mut i: usize = 0;
    while i < denied.len()
        invariant
            i <= denied.len(),
            views == text_views(denied@),
            lowered@ == lowercase_of(host@),
            !host_blocked_within(views, host@, i as int),
        decreases denied.len() - i,
    {
        if check_host_matches(lowered.as_str(), denied[i].as_str()) {
            assert(host_matches(lowercase_of(host@), views[i as int]));
            return true;
        }
        i += 1;
    }
    false
}

/// The model of a parse result.
pub open spec fn parsed_view(parsed: Result<UrlParts, String>) -> Result<UrlPartsV, Seq<char>> {
    match parsed {
        Ok(parts) => Ok(parts@),
        Err(e) => Err(e@),
    }
}

/// Checks a URL, given what parsing it yielded, against the limits: it has
/// to parse, its scheme has to be an allowed one, and its host must not be
/// denied. Returns the complaint, if there is one.
pub fn check_url_policy(c: &ToolConstraints, url: &str, parsed: &Result<UrlParts, String>) -> (r:
    Option<String>)
    ensures
        crate::llm::provider::opt_text(r) == url_violation(c@, url@, parsed_view(*parsed)),
{
    let parts = match parsed {
        Ok(parts) => parts,
        Err(detail) => {
            let mut message = "Invalid URL '".to_owned();
            message.append(url);
            message.append("': ");
            message.append(detail.as_str());
            return Some(message);
        },
    };
    if let Some(allowed) = &c.allowed_url_schemes {
        if !check_scheme_allowed(allowed, parts.scheme.as_str()) {
            let mut message = "Scheme '".to_owned();
            message.append(parts.scheme.as_str());
            message.append("' is not allowed for curl tool. Allowed schemes: ");
            message.append(join(allowed, ", ").as_str());
            return Some(message);
        }
    }
    if let Some(denied) = &c.denied_url_hosts {
        if let Some(host) = &parts.host {
            if check_host_blocked(denied, host.as_str()) {
                let mut message = "URL host '".to_owned();
                message.append(host.as_str());
                message.append("' is blocked by policy");
                return Some(message);
            }
        }
    }
    None
}

/// The model of a gate result.
pub open spec fn gate_view(result: Result<Json, String>) -> Result<JsonV, Seq<char>> {
    match result {
        Ok(args) => Ok(args@),
        Err(e) => Err(e@),
    }
}

/// Applies the limits of the tool `name` to its arguments.
pub fn apply_constraints(c: &ToolConstraints, name: &str, args: Json) -> (r: Result<Json, String>)
    ensures
        gate_view(r) == constrained_args(c@, name@, args@),
{
    if !args.is_object() {
        return Err("tool arguments must be an object".to_owned());
    }
    let mut args = args;
    if let Some(format) = &c.default_response_format {
        if args.get("response_format").is_none() {
            args = args.with("response_format", Json::string(format.as_str()));
        }
    }
    if let Some(message) = check_mode(c, name, &args) {
        return Err(message);
    }
    if str_eq(name, TOOL_LIST_FILES) {
        Ok(apply_cap(args, "max_items", c.max_items_per_call, " by policy"))
    } else if str_eq(name, TOOL_GREP_SEARCH) {
        Ok(apply_cap(args, "max_results", c.max_results_per_call, " by policy"))
    } else if str_eq(name, TOOL_READ_FILE) {
        Ok(apply_cap(args, "max_bytes", c.max_bytes_per_read, " by policy"))
    } else if str_eq(name, TOOL_CURL) {
        let args = apply_cap(args, "max_bytes", c.max_response_bytes, " bytes by policy");
        let violation = match args.get_str("url") {
            None => Some("curl tool requires a 'url' parameter".to_owned()),
            Some(url) => {
                let parsed = crate::uri::parse_url(url);
                check_url_policy(c, url, &parsed)
            },
        };
        match violation {
            Some(message) => Err(message),
            None => Ok(args),
        }
    } else {
        Ok(args)
    }
}

/// Model of a [`ToolRegistry`].
pub struct ToolRegistryV {
    pub builtin_tools: Seq<Seq<char>>,
    pub mcp_tools: Seq<Seq<char>>,
    pub tool_policy: Option<ToolPolicyManagerV>,
}

/// The model of an optional policy manager.
pub open spec fn opt_manager_view(manager: Option<ToolPolicyManager>) -> Option<
    ToolPolicyManagerV,
> {
    match manager {
        Some(m) => Some(m@),
        None => None,
    }
}

/// The registry of tools: the names of the built-in tools, the names of the
/// tools of external protocols, and the policy manager, if there is one.
#[derive(Debug)]
pub struct ToolRegistry {
    pub builtin_tools: Vec<String>,
    pub mcp_tools: Vec<String>,
    pub tool_policy: Option<ToolPolicyManager>,
}

impl View for ToolRegistry {
    type V = ToolRegistryV;

    open spec fn view(&self) -> ToolRegistryV {
        ToolRegistryV {
            builtin_tools: text_views(self.builtin_tools@),
            mcp_tools: text_views(self.mcp_tools@),
            tool_policy: opt_manager_view(self.tool_policy),
        }
    }
}

/// The message for a registry without a policy manager.
pub open spec fn manager_unavailable() -> Seq<char> {
    "Tool policy manager not available"@
}

impl ToolRegistry {
    /// A registry of the given tools, without a policy manager.
    pub fn new(builtin_tools: Vec<String>, mcp_tools: Vec<String>) -> (r: ToolRegistry)
        ensures
            r@ == (ToolRegistryV {
                builtin_tools: text_views(builtin_tools@),
                mcp_tools: text_views(mcp_tools@),
                tool_policy: None,
            }),
    {
        ToolRegistry { builtin_tools, mcp_tools, tool_policy: None }
    }

    /// Hands the policy manager the names of all tools, built-in and
    /// external, in the order of strings and each once.
    pub fn sync_policy_available_tools(&mut self)
        ensures
            final(self)@.builtin_tools == old(self)@.builtin_tools,
            final(self)@.mcp_tools == old(self)@.mcp_tools,
            match old(self)@.tool_policy {
                None => final(self)@.tool_policy is None,
                Some(before) => final(self)@.tool_policy is Some && {
                    let after = final(self)@.tool_policy->0;
                    &&& after == before.with_available(after.available_tools)
                    &&& strictly_sorted(after.available_tools)
                    &&& forall|t: Seq<char>|
                        has_text(after.available_tools, t) <==> (has_text(
                            old(self)@.builtin_tools,
                            t,
                        ) || has_text(old(self)@.mcp_tools, t))
                },
            },
    {
        let mut manager = match self.tool_policy.take() {
            Some(manager) => manager,
            None => {
                return ;
            },
        };
        let mut available = crate::text::sorted_unique(&self.builtin_tools);
        let ghost first = text_views(available@);
        let mut i: usize = 0;
        while i < self.mcp_tools.len()
            invariant
                i <= self.mcp_tools.len(),
                strictly_sorted(text_views(available@)),
                self.mcp_tools == old(self).mcp_tools,
                forall|t: Seq<char>|
                    has_text(text_views(available@), t) <==> (has_text(first, t) || has_text(
                        text_views(self.mcp_tools@).subrange(0, i as int),
                        t,
                    )),
            decreases self.mcp_tools.len() - i,
        {
            let ghost held = text_views(available@);
            assert(forall|t: Seq<char>|
                has_text(held, t) <==> (has_text(first, t) || has_text(
                    text_views(self.mcp_tools@).subrange(0, i as int),
                    t,
                )));
            crate::text::insert_sorted(&mut available, self.mcp_tools[i].as_str());
            proof {
                let all = text_views(self.mcp_tools@);
                let prefix = all.subrange(0, i as int);
                let longer = all.subrange(0, i + 1);
                assert forall|t: Seq<char>|
                    has_text(text_views(available@), t) <==> (has_text(first, t) || has_text(
                        longer,
                        t,
                    )) by {
                    assert(has_text(text_views(available@), t) <==> (has_text(held, t) || t
                        == all[i as int]));
                    assert(has_text(held, t) <==> (has_text(first, t) || has_text(prefix, t)));
                    if has_text(prefix, t) {
                        let m = choose|m: int| 0 <= m < prefix.len() && #[trigger] prefix[m] == t;
                        assert(longer[m] == t);
                    }
                    if t == all[i as int] {
                        assert(longer[i as int] == t);
                    }
                    if has_text(longer, t) {
                        let m = choose|m: int| 0 <= m < longer.len() && #[trigger] longer[m] == t;
                        if m < i {
                            assert(prefix[m] == t);
                        }
                    }
                }
            }
            i += 1;
        }
        assert(text_views(self.mcp_tools@).subrange(0, self.mcp_tools@.len() as int) =~= text_views(
            self.mcp_tools@,
        ));
        manager.update_available_tools(available);
        self.tool_policy = Some(manager);
    }

    /// Applies the policy limits of the tool `name` to its arguments: the
    /// arguments to run with, or the complaint that stops the call.
    pub fn apply_policy_constraints(&self, name: &str, args: Json) -> (r: Result<Json, String>)
        ensures
            gate_view(r) == gated_args(self@.tool_policy, name@, args@),
    {
        if !args.is_object() {
            return Err("tool arguments must be an object".to_owned());
        }
        let manager = match &self.tool_policy {
            Some(manager) => manager,
            None => {
                return Ok(args);
            },
        };
        match manager.get_constraints(name) {
            Some(c) => apply_constraints(c, name, args),
            None => Ok(args),
        }
    }

    /// The policy manager, to change it.
    pub fn policy_manager_mut(&mut self) -> (r: Result<&mut ToolPolicyManager, String>)
        ensures
            match r {
                Ok(m) => old(self).tool_policy == Some(*m) && final(self).tool_policy == Some(
                    *final(m),
                ) && final(self).builtin_tools == old(self).builtin_tools && final(self).mcp_tools
                    == old(self).mcp_tools,
                Err(e) => old(self).tool_policy is None && e@ == manager_unavailable() && *final(self) == *old(self),
            },
    {
        match &mut self.tool_policy {
            Some(manager) => Ok(manager),
            None => Err("Tool policy manager not available".to_owned()),
        }
    }

    /// The policy manager.
    pub fn policy_manager(&self) -> (r: Result<&ToolPolicyManager, String>)
        ensures
            match r {
                Ok(m) => self.tool_policy == Some(*m),
                Err(e) => self.tool_policy is None && e@ == manager_unavailable(),
            },
    {
        match &self.tool_policy {
            Some(manager) => Ok(manager),
            None => Err("Tool policy manager not available".to_owned()),
        }
    }

    /// Installs a policy manager and hands it the names of all tools.
    pub fn set_policy_manager(&mut self, manager: ToolPolicyManager)
        ensures
            final(self)@.builtin_tools == old(self)@.builtin_tools,
            final(self)@.mcp_tools == old(self)@.mcp_tools,
            final(self)@.tool_policy is Some,
            ({
                let after = final(self)@.tool_policy->0;
                &&& after == manager@.with_available(after.available_tools)
                &&& strictly_sorted(after.available_tools)
                &&& forall|t: Seq<char>|
                    has_text(after.available_tools, t) <==> (has_text(old(self)@.builtin_tools, t)
                        || has_text(old(self)@.mcp_tools, t))
            }),
    {
        self.tool_policy = Some(manager);
        self.sync_policy_available_tools();
    }

    /// Sets the policy of a tool. The registry has to have a policy
    /// manager.
    pub fn set_tool_policy(&mut self, tool_name: &str, policy: ToolPolicy) -> (r: Result<
        (),
        String,
    >)
        requires
            old(self).tool_policy is Some,
        ensures
            r is Ok,
            final(self)@ == (ToolRegistryV {
                tool_policy: Some(old(self)@.tool_policy->0.with_policy(tool_name@, policy)),
                ..old(self)@
            }),
    {
        let mut manager = match self.tool_policy.take() {
            Some(manager) => manager,
            None => {
                return Ok(());
            },
        };
        manager.set_policy(tool_name, policy);
        self.tool_policy = Some(manager);
        Ok(())
    }

    /// The policy of a tool. A tool that no policy was set for is asked
    /// about, with or without a policy manager.
    pub fn get_tool_policy(&self, tool_name: &str) -> (r: ToolPolicy)
        ensures
            r == match self@.tool_policy {
                Some(m) => m.policy_of(tool_name@),
                None => ToolPolicy::Prompt,
            },
    {
        match &self.tool_policy {
            Some(manager) => manager.get_policy(tool_name),
            None => ToolPolicy::Prompt,
        }
    }

    fn set_all_policies(&mut self, policy: ToolPolicy) -> (r: Result<(), String>)
        ensures
            match r {
                Ok(_) => old(self)@.tool_policy is Some && final(self)@ == (ToolRegistryV {
                    tool_policy: Some(old(self)@.tool_policy->0.with_all(policy)),
                    ..old(self)@
                }),
                Err(e) => old(self)@.tool_policy is None && e@ == manager_unavailable() && final(self)@ == old(self)@,
            },
    {
        let mut manager = match self.tool_policy.take() {
            Some(manager) => manager,
            None => {
                return Err("Tool policy manager not available".to_owned());
            },
        };
        match policy {
            ToolPolicy::Allow => manager.allow_all_tools(),
            ToolPolicy::Prompt => manager.reset_all_to_prompt(),
            ToolPolicy::Deny => manager.deny_all_tools(),
        }
        self.tool_policy = Some(manager);
        Ok(())
    }

    /// Sets every tool to be prompted for.
    pub fn reset_tool_policies(&mut self) -> (r: Result<(), String>)
        ensures
            match r {
                Ok(_) => old(self)@.tool_policy is Some && final(self)@ == (ToolRegistryV {
                    tool_policy: Some(old(self)@.tool_policy->0.with_all(ToolPolicy::Prompt)),
                    ..old(self)@
                }),
                Err(e) => old(self)@.tool_policy is None && e@ == manager_unavailable() && final(self)@ == old(self)@,
            },
    {
        self.set_all_policies(ToolPolicy::Prompt)
    }

    /// Allows every tool.
    pub fn allow_all_tools(&mut self) -> (r: Result<(), String>)
        ensures
            match r {
                Ok(_) => old(self)@.tool_policy is Some && final(self)@ == (ToolRegistryV {
                    tool_policy: Some(old(self)@.tool_policy->0.with_all(ToolPolicy::Allow)),
                    ..old(self)@
                }),
                Err(e) => old(self)@.tool_policy is None && e@ == manager_unavailable() && final(self)@ == old(self)@,
            },
    {
        self.set_all_policies(ToolPolicy::Allow)
    }

    /// Denies every tool.
    pub fn deny_all_tools(&mut self) -> (r: Result<(), String>)
        ensures
            match r {
                Ok(_) => old(self)@.tool_policy is Some && final(self)@ == (ToolRegistryV {
                    tool_policy: Some(old(self)@.tool_policy->0.with_all(ToolPolicy::Deny)),
                    ..old(self)@
                }),
                Err(e) => old(self)@.tool_policy is None && e@ == manager_unavailable() && final(self)@ == old(self)@,
            },
    {
        self.set_all_policies(ToolPolicy::Deny)
    }
}

} // verus!
