use deepomni::config::{
    ApiKeySource, CliOverrides, ConfigError, ConfigStore, ConfigToml, EnvOverrides, PluginsConfig,
    ProviderKind, ResolvedConfig, SearchRoots, DEFAULT_DEEPSEEK_BASE_URL, DEFAULT_DEEPSEEK_MODEL,
};

fn roots() -> SearchRoots {
    SearchRoots {
        user_plugins: "/home/u/.deepomni/plugins".into(),
        user_skills: "/home/u/.deepomni/skills".into(),
        workspace_plugins: None,
        workspace_skills: None,
    }
}

fn resolve(
    user: ConfigToml,
    workspace: Option<&ConfigToml>,
    cli: &CliOverrides,
    env: &EnvOverrides,
) -> ResolvedConfig {
    ConfigStore::new(user).resolve(cli, env, workspace, &roots())
}

#[test]
fn test_provider_kind_parse() {
    assert_eq!(ProviderKind::parse("deepseek"), Some(ProviderKind::Deepseek));
    assert_eq!(ProviderKind::parse("openai"), Some(ProviderKind::Openai));
    assert_eq!(ProviderKind::parse("ollama-local"), Some(ProviderKind::Ollama));
    assert_eq!(ProviderKind::parse("unknown"), None);
}

#[test]
fn provider_names_are_folded_and_read_back() {
    assert_eq!(ProviderKind::parse("  Deep-Seek\n"), Some(ProviderKind::Deepseek));
    assert_eq!(ProviderKind::parse("OPEN_ROUTER"), Some(ProviderKind::Openrouter));
    for kind in [
        ProviderKind::Deepseek,
        ProviderKind::Openai,
        ProviderKind::Openrouter,
        ProviderKind::Ollama,
        ProviderKind::Vllm,
        ProviderKind::Sglang,
    ] {
        assert_eq!(ProviderKind::parse(kind.as_str()), Some(kind));
    }
}

#[test]
fn test_default_config_is_empty() {
    let config = ConfigToml::default();
    assert_eq!(config.provider, ProviderKind::Deepseek);
    assert!(config.api_key.is_none());
}

#[test]
fn test_cli_overrides_default() {
    let cli = CliOverrides::default();
    assert!(cli.model.is_none());
    assert!(cli.provider.is_none());
}

#[test]
fn test_resolve_with_no_config() {
    let resolved = resolve(
        ConfigToml::default(),
        None,
        &CliOverrides::default(),
        &EnvOverrides::default(),
    );
    assert_eq!(resolved.provider, ProviderKind::Deepseek);
    assert_eq!(resolved.model, DEFAULT_DEEPSEEK_MODEL);
    assert_eq!(resolved.approval_policy, "unless_trusted");
    assert_eq!(resolved.base_url, DEFAULT_DEEPSEEK_BASE_URL);
    assert_eq!(resolved.sandbox_mode, "auto");
    assert_eq!(resolved.api_key, None);
    assert_eq!(resolved.api_key_source.to_string(), "none");
    assert_eq!(resolved.plugin_paths, vec!["/home/u/.deepomni/plugins".to_string()]);
}

#[test]
fn sources_win_in_their_order() {
    let mut user = ConfigToml::default();
    user.model = Some("user-model".into());
    user.api_key = Some("user-key".into());
    user.providers.openai.base_url = Some("http://user-openai".into());
    user.plugins = Some(PluginsConfig { extra_paths: vec!["/extra".into()] });
    let mut workspace = ConfigToml::default();
    workspace.model = Some("ws-model".into());
    workspace.provider = ProviderKind::Openai;
    workspace.providers.openai.api_key = Some("ws-openai-key".into());
    workspace.sandbox_mode = Some("workspace_write".into());
    let mut env = EnvOverrides::default();
    let mut cli = CliOverrides::default();

    let r = ConfigStore::new(user).resolve(&cli, &env, Some(&workspace), &SearchRoots {
        user_plugins: "/u/p".into(),
        user_skills: "/u/s".into(),
        workspace_plugins: Some("/w/p".into()),
        workspace_skills: Some("/w/s".into()),
    });
    assert_eq!(r.provider, ProviderKind::Openai);
    assert_eq!(r.model, "ws-model");
    assert_eq!(r.api_key.as_deref(), Some("ws-openai-key"));
    assert_eq!(r.api_key_source, ApiKeySource::ConfigFile);
    assert_eq!(r.base_url, "http://user-openai");
    assert_eq!(r.sandbox_mode, "workspace_write");
    assert_eq!(r.plugin_paths, vec!["/u/p".to_string(), "/extra".into(), "/w/p".into()]);
    assert_eq!(r.skill_paths, vec!["/u/s".to_string(), "/w/s".into()]);

    env.model = Some("env-model".into());
    env.api_key = Some("env-key".into());
    let r = resolve(ConfigToml::default(), Some(&workspace), &cli, &env);
    assert_eq!(r.model, "env-model");
    assert_eq!(r.api_key.as_deref(), Some("env-key"));
    assert_eq!(r.api_key_source, ApiKeySource::EnvVar);

    cli.model = Some("cli-model".into());
    cli.api_key = Some("cli-key".into());
    cli.provider = Some(ProviderKind::Vllm);
    let r = resolve(ConfigToml::default(), Some(&workspace), &cli, &env);
    assert_eq!(r.provider, ProviderKind::Vllm);
    assert_eq!(r.model, "cli-model");
    assert_eq!(r.api_key_source.to_string(), "cli");
}

#[test]
fn headers_of_the_file_win_over_those_of_the_provider() {
    let mut user = ConfigToml::default();
    user.http_headers.insert("a".into(), "root".into());
    user.providers.deepseek.http_headers.insert("a".into(), "provider".into());
    user.providers.deepseek.http_headers.insert("b".into(), "provider".into());
    let mut workspace = ConfigToml::default();
    workspace.providers.deepseek.http_headers.insert("b".into(), "workspace".into());
    let r = resolve(
        user,
        Some(&workspace),
        &CliOverrides::default(),
        &EnvOverrides::default(),
    );
    assert_eq!(r.http_headers.get("a").map(|s| s.as_str()), Some("root"));
    assert_eq!(r.http_headers.get("b").map(|s| s.as_str()), Some("workspace"));
    assert_eq!(r.http_headers.len(), 2);
}

#[test]
fn config_errors_have_their_texts() {
    assert_eq!(
        ConfigError::NoHomeDir.to_string(),
        "could not determine home directory"
    );
    assert_eq!(
        ConfigError::ReadError { path: "/c".into(), source: "denied".into() }.to_string(),
        "failed to read config at /c: denied"
    );
    assert_eq!(
        ConfigError::ParseError { path: "/c".into(), source: "bad".into() }.to_string(),
        "failed to parse config at /c: bad"
    );
}

#[test]
fn a_workspace_wins_over_the_user() {
    let mut user = ConfigToml::default();
    user.base_url = Some("https://user".into());
    user.providers.deepseek.api_key = Some("user-key".into());
    let mut workspace = ConfigToml::default();
    workspace.base_url = Some("https://workspace".into());
    workspace.providers.deepseek.api_key = Some("workspace-key".into());
    let none = CliOverrides::default();
    let env = EnvOverrides::default();
    let resolved = resolve(user, Some(&workspace), &none, &env);
    assert_eq!(resolved.base_url, "https://workspace");
    assert_eq!(resolved.api_key.as_deref(), Some("workspace-key"));
}

#[test]
fn what_is_set_for_a_provider_wins_over_the_top_of_the_file() {
    let mut user = ConfigToml::default();
    user.model = Some("top".into());
    user.providers.deepseek.model = Some("own".into());
    let none = CliOverrides::default();
    let resolved = resolve(user, None, &none, &EnvOverrides::default());
    assert_eq!(resolved.model, "own");
}

#[test]
fn a_workspace_wins_for_every_provider() {
    let mut user = ConfigToml::default();
    user.providers.ollama.api_key = Some("user-key".into());
    user.providers.ollama.base_url = Some("http://user".into());
    user.http_headers.insert("h".into(), "user".into());
    user.plugins = Some(PluginsConfig { extra_paths: vec!["/user".into()] });
    let mut workspace = ConfigToml::default();
    workspace.provider = ProviderKind::Ollama;
    workspace.api_key = Some("ws-key".into());
    workspace.providers.ollama.base_url = Some("http://ws".into());
    workspace.providers.ollama.model = Some("llama".into());
    workspace.providers.ollama.http_headers.insert("h".into(), "ws".into());
    workspace.plugins = Some(PluginsConfig { extra_paths: vec!["/ws".into()] });
    let r = resolve(user, Some(&workspace), &CliOverrides::default(), &EnvOverrides::default());
    assert_eq!(r.provider, ProviderKind::Ollama);
    assert_eq!(r.api_key.as_deref(), Some("ws-key"));
    assert_eq!(r.base_url, "http://ws");
    assert_eq!(r.model, "llama");
    assert_eq!(r.http_headers.get("h").map(|s| s.as_str()), Some("ws"));
    assert!(r.plugin_paths.contains(&"/ws".to_string()));
    assert!(!r.plugin_paths.contains(&"/user".to_string()));
}
