use vtcode_core::json::Json;
use vtcode_core::tool_policy::{ToolConstraints, ToolPolicy, ToolPolicyManager};
use vtcode_core::tools::registry::policy::{apply_constraints, check_url_policy};
use vtcode_core::tools::registry::ToolRegistry;
use vtcode_core::uri::UrlParts;

fn json(text: &str) -> Json {
    Json::parse(text).expect("the text of a test is JSON")
}

fn limits() -> ToolConstraints {
    ToolConstraints::unlimited()
}

fn names(items: &[&str]) -> Vec<String> {
    items.iter().map(|item| item.to_string()).collect()
}

#[test]
fn request_over_the_cap_is_clamped_with_a_note() {
    let mut c = limits();
    c.max_items_per_call = Some(50);
    let out = apply_constraints(&c, "list_files", json(r#"{"path": ".", "max_items": 500}"#))
        .expect("arguments");
    assert_eq!(out.get_u64("max_items"), Some(50));
    assert_eq!(out.get_str("_policy_note"), Some("Capped max_items to 50 by policy"));
    assert_eq!(out.get_str("path"), Some("."));
}

#[test]
fn request_within_the_cap_is_unchanged() {
    let mut c = limits();
    c.max_items_per_call = Some(50);
    c.max_results_per_call = Some(10);
    c.max_bytes_per_read = Some(1000);
    let within = apply_constraints(&c, "list_files", json(r#"{"max_items": 50}"#)).unwrap();
    assert_eq!(within.to_text(), json(r#"{"max_items": 50}"#).to_text());
    let absent = apply_constraints(&c, "grep_search", json(r#"{"pattern": "x"}"#)).unwrap();
    assert_eq!(absent.to_text(), json(r#"{"pattern": "x"}"#).to_text());
    let grep = apply_constraints(&c, "grep_search", json(r#"{"max_results": 11}"#)).unwrap();
    assert_eq!(grep.get_u64("max_results"), Some(10));
    let read = apply_constraints(&c, "read_file", json(r#"{"max_bytes": 1001}"#)).unwrap();
    assert_eq!(read.get_u64("max_bytes"), Some(1000));
    assert_eq!(read.get_str("_policy_note"), Some("Capped max_bytes to 1000 by policy"));
}

#[test]
fn curl_cap_speaks_of_bytes() {
    let mut c = limits();
    c.max_response_bytes = Some(2048);
    let out = apply_constraints(
        &c,
        "curl",
        json(r#"{"url": "https://example.com/a", "max_bytes": 999999}"#),
    )
    .unwrap();
    assert_eq!(out.get_u64("max_bytes"), Some(2048));
    assert_eq!(out.get_str("_policy_note"), Some("Capped max_bytes to 2048 bytes by policy"));
}

#[test]
fn default_format_is_filled_in() {
    let mut c = limits();
    c.default_response_format = Some("concise".to_string());
    let out = apply_constraints(&c, "anything", json("{}")).unwrap();
    assert_eq!(out.get_str("response_format"), Some("concise"));
    let kept = apply_constraints(&c, "anything", json(r#"{"response_format": "full"}"#)).unwrap();
    assert_eq!(kept.get_str("response_format"), Some("full"));
}

#[test]
fn mode_outside_the_allowed_ones_is_refused() {
    let mut c = limits();
    c.allowed_modes = Some(names(&["list", "find"]));
    let refused = apply_constraints(&c, "list_files", json(r#"{"mode": "recursive"}"#));
    assert_eq!(
        refused.err().as_deref(),
        Some("Mode 'recursive' not allowed by policy for 'list_files'. Allowed: list, find")
    );
    assert!(apply_constraints(&c, "list_files", json(r#"{"mode": "find"}"#)).is_ok());
    assert!(apply_constraints(&c, "list_files", json("{}")).is_ok());
}

#[test]
fn arguments_that_are_no_object_are_refused() {
    let c = limits();
    assert_eq!(
        apply_constraints(&c, "list_files", json("[1]")).err().as_deref(),
        Some("tool arguments must be an object")
    );
}

#[test]
fn curl_needs_a_url_that_parses() {
    let c = limits();
    assert_eq!(
        apply_constraints(&c, "curl", json("{}")).err().as_deref(),
        Some("curl tool requires a 'url' parameter")
    );
    let bad = apply_constraints(&c, "curl", json(r#"{"url": "not a url"}"#));
    assert!(bad.err().expect("an error").starts_with("Invalid URL 'not a url': "));
    assert!(apply_constraints(&c, "curl", json(r#"{"url": "https://example.com/x"}"#)).is_ok());
}

#[test]
fn url_scheme_outside_the_allowed_ones_is_refused() {
    let mut c = limits();
    c.allowed_url_schemes = Some(names(&["https"]));
    let refused = apply_constraints(&c, "curl", json(r#"{"url": "ftp://example.com/file"}"#));
    assert_eq!(
        refused.err().as_deref(),
        Some("Scheme 'ftp' is not allowed for curl tool. Allowed schemes: https")
    );
    assert!(apply_constraints(&c, "curl", json(r#"{"url": "HTTPS://example.com/"}"#)).is_ok());
}

#[test]
fn denied_hosts_match_by_suffix_and_case() {
    let mut c = limits();
    c.denied_url_hosts = Some(names(&["Internal.test", ".corp.example"]));
    let blocked = |url: &str| {
        apply_constraints(&c, "curl", Json::object1("url", Json::string(url))).err()
    };
    assert_eq!(
        blocked("https://internal.test/a").as_deref(),
        Some("URL host 'internal.test' is blocked by policy")
    );
    assert!(blocked("https://api.INTERNAL.test/").is_some());
    assert!(blocked("https://notinternal.test/").is_none());
    assert!(blocked("https://a.corp.example/").is_some());
    assert!(blocked("https://corp.example/").is_none());
    assert!(blocked("https://example.com/").is_none());
}

#[test]
fn url_policy_follows_the_parse_result() {
    let mut c = limits();
    c.allowed_url_schemes = Some(names(&["https", "http"]));
    c.denied_url_hosts = Some(names(&["localhost"]));
    let parts = |scheme: &str, host: Option<&str>| -> Result<UrlParts, String> {
        Ok(UrlParts {
            scheme: scheme.to_string(),
            host: host.map(|h| h.to_string()),
            path: "/".to_string(),
        })
    };
    assert_eq!(check_url_policy(&c, "u", &parts("https", Some("example.com"))), None);
    assert_eq!(
        check_url_policy(&c, "u", &parts("file", None)).as_deref(),
        Some("Scheme 'file' is not allowed for curl tool. Allowed schemes: https, http")
    );
    assert_eq!(
        check_url_policy(&c, "u", &parts("http", Some("LocalHost"))).as_deref(),
        Some("URL host 'LocalHost' is blocked by policy")
    );
    assert_eq!(
        check_url_policy(&c, "u", &Err("relative URL without a base".to_string())).as_deref(),
        Some("Invalid URL 'u': relative URL without a base")
    );
}

#[test]
fn policies_default_to_prompt_and_are_set_one_by_one() {
    let mut manager = ToolPolicyManager::new();
    assert_eq!(manager.get_policy("read_file"), ToolPolicy::Prompt);
    manager.set_policy("read_file", ToolPolicy::Allow);
    manager.set_policy("curl", ToolPolicy::Deny);
    assert_eq!(manager.get_policy("read_file"), ToolPolicy::Allow);
    assert_eq!(manager.get_policy("curl"), ToolPolicy::Deny);
    assert_eq!(manager.get_policy("other"), ToolPolicy::Prompt);
    manager.set_policy("read_file", ToolPolicy::Deny);
    assert_eq!(manager.get_policy("read_file"), ToolPolicy::Deny);
    assert_eq!(manager.get_policy("curl"), ToolPolicy::Deny);
}

#[test]
fn bulk_changes_reach_every_available_tool() {
    let mut manager = ToolPolicyManager::new();
    manager.update_available_tools(names(&["a", "b"]));
    manager.allow_all_tools();
    assert_eq!(manager.get_policy("a"), ToolPolicy::Allow);
    assert_eq!(manager.get_policy("b"), ToolPolicy::Allow);
    manager.deny_all_tools();
    assert_eq!(manager.get_policy("a"), ToolPolicy::Deny);
    manager.reset_all_to_prompt();
    assert_eq!(manager.get_policy("a"), ToolPolicy::Prompt);
    assert_eq!(manager.get_policy("b"), ToolPolicy::Prompt);
}

#[test]
fn constraints_are_kept_by_tool() {
    let mut manager = ToolPolicyManager::new();
    assert!(manager.get_constraints("list_files").is_none());
    let mut c = limits();
    c.max_items_per_call = Some(3);
    manager.set_constraints("list_files", c);
    assert_eq!(
        manager.get_constraints("list_files").and_then(|c| c.max_items_per_call),
        Some(3)
    );
    assert!(manager.get_constraints("curl").is_none());
}

#[test]
fn registry_gates_arguments_through_its_manager() {
    let mut registry = ToolRegistry::new(names(&["list_files", "curl"]), names(&["mcp_b", "mcp_a"]));
    let args = json(r#"{"max_items": 900}"#);
    let free = registry.apply_policy_constraints("list_files", args.duplicate()).unwrap();
    assert_eq!(free.get_u64("max_items"), Some(900));
    assert_eq!(registry.get_tool_policy("list_files"), ToolPolicy::Prompt);
    assert!(registry.policy_manager().is_err());
    assert!(registry.reset_tool_policies().is_err());

    let mut manager = ToolPolicyManager::new();
    let mut c = limits();
    c.max_items_per_call = Some(100);
    manager.set_constraints("list_files", c);
    registry.set_policy_manager(manager);
    let capped = registry.apply_policy_constraints("list_files", args).unwrap();
    assert_eq!(capped.get_u64("max_items"), Some(100));
    let available = &registry.policy_manager().unwrap().available_tools;
    assert_eq!(available, &names(&["curl", "list_files", "mcp_a", "mcp_b"]));

    assert_eq!(registry.get_tool_policy("curl"), ToolPolicy::Prompt);
    registry.set_tool_policy("curl", ToolPolicy::Deny).unwrap();
    assert_eq!(registry.get_tool_policy("curl"), ToolPolicy::Deny);
    registry.allow_all_tools().unwrap();
    assert_eq!(registry.get_tool_policy("curl"), ToolPolicy::Allow);
    registry.deny_all_tools().unwrap();
    assert_eq!(registry.get_tool_policy("list_files"), ToolPolicy::Deny);
    registry.reset_tool_policies().unwrap();
    assert_eq!(registry.get_tool_policy("list_files"), ToolPolicy::Prompt);
}

#[test]
fn hosts_under_a_denied_suffix_are_blocked() {
    let mut c = limits();
    c.allowed_url_schemes = Some(names(&["https"]));
    c.denied_url_hosts = Some(names(&[".internal"]));
    let passed = apply_constraints(
        &c,
        "curl",
        Json::object1("url", Json::string("https://api.example.com/v1")),
    );
    assert!(passed.is_ok());
    let blocked = apply_constraints(
        &c,
        "curl",
        Json::object1("url", Json::string("https://svc.internal/v1")),
    );
    assert_eq!(blocked.err().as_deref(), Some("URL host 'svc.internal' is blocked by policy"));
}

#[test]
fn arguments_that_are_no_object_are_refused_for_every_tool() {
    let mut registry = ToolRegistry::new(names(&["list_files"]), Vec::new());
    for args in ["[1]", "\"x\"", "3", "null"] {
        assert_eq!(
            registry.apply_policy_constraints("list_files", json(args)).err().as_deref(),
            Some("tool arguments must be an object")
        );
    }
    registry.set_policy_manager(ToolPolicyManager::new());
    assert_eq!(
        registry.apply_policy_constraints("anything", json("[1]")).err().as_deref(),
        Some("tool arguments must be an object")
    );
    assert!(registry.apply_policy_constraints("anything", json("{}")).is_ok());
}
