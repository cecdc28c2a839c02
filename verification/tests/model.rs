use deepomni::model::{ModelInfo, ModelProviderError, ProviderRegistry};

fn info(id: &str, aliases: Vec<String>) -> ModelInfo {
    ModelInfo {
        id: id.into(),
        provider: "deepseek".into(),
        display_name: "DeepSeek V4 Pro".into(),
        context_window: 1_000_000,
        supports_tools: true,
        supports_reasoning: true,
        aliases,
        max_output_tokens: Some(32000),
    }
}

#[test]
fn test_provider_registry_resolve() {
    let mut registry = ProviderRegistry::new();
    registry.register(
        "deepseek",
        vec![info("deepseek-v4-pro", vec!["deepseek-chat".into()])],
        "deepseek",
    );

    let (id, p) = registry.resolve("deepseek-chat").unwrap();
    assert_eq!(id, "deepseek-v4-pro");
    assert_eq!(*p, "deepseek");

    let (id, _) = registry.resolve("deepseek-v4-pro").unwrap();
    assert_eq!(id, "deepseek-v4-pro");

    assert!(registry.resolve("unknown-model").is_none());
    assert_eq!(registry.list_models().len(), 1);
    assert_eq!(registry.get_provider("deepseek"), Some(&"deepseek"));
    assert_eq!(registry.get_provider("other"), None);
}

#[test]
fn test_model_info_defaults() {
    let model = ModelInfo {
        id: "test".into(),
        provider: "test".into(),
        display_name: "Test".into(),
        context_window: 128_000,
        supports_tools: false,
        supports_reasoning: false,
        aliases: vec![],
        max_output_tokens: None,
    };
    assert_eq!(model.context_window, 128_000);
    assert!(!model.supports_tools);
    assert!(!model.supports_reasoning);
}

#[test]
fn provider_errors_have_their_texts() {
    let cases = vec![
        (ModelProviderError::HttpError { status: 503, body: "down".into() }, "HTTP 503: down"),
        (ModelProviderError::StreamError("cut".into()), "stream error: cut"),
        (ModelProviderError::RateLimited { retry_after_secs: None }, "rate limited"),
        (
            ModelProviderError::RateLimited { retry_after_secs: Some(3) },
            "rate limited, retry after 3s",
        ),
        (ModelProviderError::Timeout, "request timed out"),
        (ModelProviderError::InvalidResponse("x".into()), "invalid response: x"),
        (ModelProviderError::AuthError("key".into()), "auth error: key"),
        (ModelProviderError::UnknownModel("m".into()), "unknown model: m"),
    ];
    for (error, text) in cases {
        assert_eq!(error.to_string(), text);
    }
}

#[test]
fn a_name_claimed_twice_leads_to_the_later_model() {
    let mut registry = ProviderRegistry::new();
    let first = ModelInfo { provider: "first".into(), ..info("m-1", vec!["chat".into()]) };
    let second = ModelInfo { provider: "second".into(), ..info("m-2", vec!["chat".into()]) };
    registry.register("first", vec![first], 1u8);
    registry.register("second", vec![second], 2u8);
    let (id, provider) = registry.resolve("chat").unwrap();
    assert_eq!(id, "m-2");
    assert_eq!(*provider, 2);
    assert_eq!(registry.resolve("m-1").map(|(id, p)| (id, *p)), Some(("m-1".to_string(), 1)));
}
