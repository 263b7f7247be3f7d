use picoclaw::config::Config;
use picoclaw::config::settings::agent_settings;
use picoclaw::json::Json;

#[test]
fn test_default_config_is_valid() {
    let config = Config::default();
    assert!(config.agent.max_context_size > 0);
    assert!(config.agent.timeout_ms > 0);
    assert!(config.agent.memory_limit_mb > 0);
    assert!(!config.llm.default_provider.is_empty());
}

#[test]
fn default_config_values() {
    let config = Config::default();
    assert_eq!(config.agent.max_context_size, 8192);
    assert_eq!(config.agent.timeout_ms, 5000);
    assert_eq!(config.agent.memory_limit_mb, 10);
    assert!(config.channels.telegram.is_none() && config.channels.discord.is_none());
    assert_eq!(config.llm.default_provider, "openrouter");
    assert!(config.llm.providers.is_empty());
    assert!(config.tools.web_search.is_none() && config.tools.filesystem.is_none() && config.tools.shell.is_none());
    assert!(config.auth.oauth_enabled);
    assert_eq!(config.logging.level, "info");
    assert_eq!(config.logging.format, "json");
}

#[test]
fn prop_env_var_override() {
    for (original_timeout, override_timeout) in [(100u64, 60000u64), (5000, 100), (60000, 30000), (101, 102)] {
        let mut config = Config::default();
        config.agent.timeout_ms = original_timeout;
        let mut overridden_config = config.clone();
        overridden_config.agent.timeout_ms = override_timeout;
        assert_eq!(overridden_config.agent.timeout_ms, override_timeout);
        assert_ne!(overridden_config.agent.timeout_ms, original_timeout);
        assert_eq!(config.agent.max_context_size, overridden_config.agent.max_context_size);
        assert_eq!(config.agent.memory_limit_mb, overridden_config.agent.memory_limit_mb);
    }
}

#[test]
fn prop_multiple_env_var_overrides() {
    for (timeout, context_size, memory_limit) in [(100u64, 1usize, 1usize), (60000, 65536, 100), (2500, 4096, 50)] {
        let mut config = Config::default();
        config.agent.timeout_ms = timeout;
        config.agent.max_context_size = context_size;
        config.agent.memory_limit_mb = memory_limit;
        assert_eq!(config.agent.timeout_ms, timeout);
        assert_eq!(config.agent.max_context_size, context_size);
        assert_eq!(config.agent.memory_limit_mb, memory_limit);
    }
}

#[test]
fn prop_env_var_override_type_preservation() {
    for (timeout, context_size) in [(100u64, 1usize), (60000, 65536), (777, 1234)] {
        let mut config = Config::default();
        config.agent.timeout_ms = timeout;
        config.agent.max_context_size = context_size;
        let timeout_val: u64 = config.agent.timeout_ms;
        let context_val: usize = config.agent.max_context_size;
        assert_eq!(timeout_val, timeout);
        assert_eq!(context_val, context_size);
    }
}

fn obj(fields: Vec<(&str, Json)>) -> Json {
    Json::Object(fields.into_iter().map(|(k, v)| (k.to_string(), v)).collect())
}

fn text(s: &str) -> Json {
    Json::Str(s.to_string())
}

#[test]
fn agent_settings_read_from_document() {
    let config = obj(vec![
        ("agents", obj(vec![("defaults", obj(vec![("provider", text("ollama")), ("model", text("llama3"))]))])),
        (
            "providers",
            obj(vec![
                ("ollama", obj(vec![("api_key", text("k-1")), ("api_base", text("http://localhost:11434/v1"))])),
                ("openrouter", obj(vec![("api_key", text("other"))])),
            ]),
        ),
    ]);
    let s = agent_settings(&config);
    assert_eq!(s.provider, "ollama");
    assert_eq!(s.model, "llama3");
    assert_eq!(s.api_key, "k-1");
    assert_eq!(s.api_base, "http://localhost:11434/v1");
    assert!(!s.key_missing());
}

#[test]
fn agent_settings_defaults_on_empty_document() {
    let s = agent_settings(&Json::Null);
    assert_eq!(s.provider, "openrouter");
    assert_eq!(s.model, "meta-llama/llama-2-70b-chat");
    assert_eq!(s.api_key, "");
    assert_eq!(s.api_base, "https://openrouter.ai/api/v1");
    assert!(s.key_missing());
}

#[test]
fn agent_settings_ignore_non_text_values() {
    let config = obj(vec![
        ("agents", obj(vec![("defaults", obj(vec![("provider", Json::Number("3".to_string()))]))])),
        ("providers", obj(vec![("openrouter", obj(vec![("api_key", text("abc"))]))])),
    ]);
    let s = agent_settings(&config);
    assert_eq!(s.provider, "openrouter");
    assert_eq!(s.api_key, "abc");
    assert_eq!(s.api_base, "https://openrouter.ai/api/v1");
}

#[test]
fn local_providers_need_no_key() {
    for provider in ["ollama", "vllm"] {
        let config = obj(vec![("agents", obj(vec![("defaults", obj(vec![("provider", text(provider))]))]))]);
        let s = agent_settings(&config);
        assert_eq!(s.provider, provider);
        assert_eq!(s.api_key, "");
        assert!(!s.key_missing());
    }
    let config = obj(vec![("agents", obj(vec![("defaults", obj(vec![("provider", text("openai"))]))]))]);
    assert!(agent_settings(&config).key_missing());
}
