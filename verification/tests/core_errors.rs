use deepomni::error::{DeepOmniError, ErrorKind, Retryability, Visibility};
use deepomni::redact::{redact_api_key, redact_env_var};

#[test]
fn test_error_kind_display() {
    assert_eq!(ErrorKind::Config.to_string(), "config");
    assert_eq!(ErrorKind::Provider.to_string(), "provider");
    assert_eq!(ErrorKind::PolicyDenied.to_string(), "policy_denied");
    assert_eq!(ErrorKind::Tool.to_string(), "tool");
}

#[test]
fn test_error_display_no_detail() {
    let err = DeepOmniError::config("missing field").with_retryable(Retryability::NotRetryable);
    let s = err.to_string();
    assert!(s.contains("[config]"));
    assert!(s.contains("missing field"));
}

#[test]
fn test_error_display_with_detail() {
    let err =
        DeepOmniError::provider("API error").with_detail("POST /chat/completions returned 503");
    let s = err.to_string();
    assert!(s.contains("[provider]"));
    assert!(s.contains("API error"));
    assert!(s.contains("503"));
    assert_eq!(s, "[provider] API error (POST /chat/completions returned 503)");
}

#[test]
fn test_error_kind_all_variants() {
    let _ = DeepOmniError::config("test");
    let _ = DeepOmniError::protocol("test");
    let _ = DeepOmniError::provider("test");
    let _ = DeepOmniError::tool("test");
    let _ = DeepOmniError::policy_denied("test");
    let _ = DeepOmniError::rate_limited("test");
    let _ = DeepOmniError::timeout("test");
    let _ = DeepOmniError::cancelled();
    let _ = DeepOmniError::invalid_model_output("test");
    let _ = DeepOmniError::internal("test");
}

#[test]
fn test_redact_api_key() {
    assert_eq!(redact_api_key("sk-abcdefgh1234"), "sk-a...1234");
    assert_eq!(redact_api_key("short"), "***");
}

#[test]
fn test_redact_env_var() {
    assert_eq!(redact_env_var("secret123"), "<set>");
    assert_eq!(redact_env_var(""), "<empty>");
}

#[test]
fn an_error_tells_who_may_see_it_and_what_caused_it() {
    let error = DeepOmniError::config("bad file").with_dev_visible().with_source("no such file");
    assert_eq!(error.visibility, Visibility::DeveloperVisible);
    assert_eq!(error.source.as_deref(), Some("no such file"));
    assert_eq!(DeepOmniError::config("bad file").visibility, Visibility::UserVisible);
    assert_eq!(DeepOmniError::internal("broken").visibility, Visibility::DeveloperVisible);
}
