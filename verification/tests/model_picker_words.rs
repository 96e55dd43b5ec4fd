use vtcode_core::agent::runloop::model_picker::{derive_env_key, is_cancel_command, title_case};

#[test]
fn giving_up_is_recognised_in_any_case() {
    assert!(is_cancel_command("cancel"));
    assert!(is_cancel_command("/Cancel"));
    assert!(is_cancel_command("ABORT"));
    assert!(is_cancel_command("quit"));
    assert!(!is_cancel_command("quit "));
    assert!(!is_cancel_command("exit"));
    assert!(!is_cancel_command(""));
}

#[test]
fn provider_names_become_labels() {
    assert_eq!(title_case("openrouter"), "Openrouter");
    assert_eq!(title_case("xAI"), "Xai");
    assert_eq!(title_case(""), "");
    assert_eq!(title_case("9lives"), "9lives");
    assert_eq!(title_case("élan"), "élan");
}

#[test]
fn key_names_are_derived_from_provider_names() {
    assert_eq!(derive_env_key("openrouter"), "OPENROUTER_API_KEY");
    assert_eq!(derive_env_key("my-provider.v2"), "MY_PROVIDER_V2_API_KEY");
    assert_eq!(derive_env_key("a--b"), "A_B_API_KEY");
    assert_eq!(derive_env_key("trailing-"), "TRAILING_API_KEY");
    assert_eq!(derive_env_key(""), "LLM_API_KEY");
    assert_eq!(derive_env_key("--"), "_API_KEY");
    assert_eq!(derive_env_key("x_api_key"), "X_API_KEY");
}
