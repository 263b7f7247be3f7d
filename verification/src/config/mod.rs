//! Configuration of the assistant.
pub mod settings;
use std::collections::HashMap;
use vstd::prelude::*;

verus! {

/// Main configuration structure.
#[derive(Debug, Clone)]
pub struct Config {
    pub agent: AgentConfig,
    pub channels: ChannelsConfig,
    pub llm: LlmConfig,
    pub tools: ToolsConfig,
    pub auth: AuthConfig,
    pub logging: LoggingConfig,
}

/// Agent configuration.
#[derive(Debug, Clone, Copy)]
pub struct AgentConfig {
    pub max_context_size: usize,
    pub timeout_ms: u64,
    pub memory_limit_mb: usize,
}

/// Channels configuration.
#[derive(Debug, Clone)]
pub struct ChannelsConfig {
    pub telegram: Option<ChannelConfig>,
    pub discord: Option<ChannelConfig>,
}

/// Configuration of one channel.
#[derive(Debug, Clone)]
pub struct ChannelConfig {
    pub enabled: bool,
    pub token: Option<String>,
}

/// LLM configuration.
#[derive(Debug, Clone)]
pub struct LlmConfig {
    pub default_provider: String,
    pub providers: HashMap<String, ProviderConfig>,
}

/// Configuration of one LLM provider.
#[derive(Debug, Clone)]
pub struct ProviderConfig {
    pub api_key: Option<String>,
    pub model: Option<String>,
}

/// Tools configuration.
#[derive(Debug, Clone, Copy)]
pub struct ToolsConfig {
    pub web_search: Option<ToolConfig>,
    pub filesystem: Option<ToolConfig>,
    pub shell: Option<ToolConfig>,
}

/// Configuration of one tool.
#[derive(Debug, Clone, Copy)]
pub struct ToolConfig {
    pub enabled: bool,
}

/// Authentication configuration.
#[derive(Debug, Clone, Copy)]
pub struct AuthConfig {
    pub oauth_enabled: bool,
}

/// Logging configuration.
#[derive(Debug, Clone)]
pub struct LoggingConfig {
    pub level: String,
    pub format: String,
}

/// Whether `c` holds the default settings.
pub open spec fn is_default_config(c: Config) -> bool {
    &&& c.agent.max_context_size == 8192
    &&& c.agent.timeout_ms == 5000
    &&& c.agent.memory_limit_mb == 10
    &&& c.channels.telegram is None
    &&& c.channels.discord is None
    &&& c.llm.default_provider@ == "openrouter"@
    &&& c.llm.providers@ == Map::<String, ProviderConfig>::empty()
    &&& c.tools.web_search is None
    &&& c.tools.filesystem is None
    &&& c.tools.shell is None
    &&& c.auth.oauth_enabled
    &&& c.logging.level@ == "info"@
    &&& c.logging.format@ == "json"@
}

impl Default for Config {
    /// The default settings: an 8192-token context, a 5 s timeout, a 10 MB memory
    /// limit, no channels, the `openrouter` provider with no provider settings, no
    /// tools, OAuth enabled, and `info` logging in `json` format.
    fn default() -> (r: Self)
        ensures
            is_default_config(r),
    {
        Config {
            agent: AgentConfig { max_context_size: 8192, timeout_ms: 5000, memory_limit_mb: 10 },
            channels: ChannelsConfig { telegram: None, discord: None },
            llm: LlmConfig { default_provider: "openrouter".to_owned(), providers: HashMap::new() },
            tools: ToolsConfig { web_search: None, filesystem: None, shell: None },
            auth: AuthConfig { oauth_enabled: true },
            logging: LoggingConfig { level: "info".to_owned(), format: "json".to_owned() },
        }
    }
}

/// The default settings are usable: positive sizes and timeout, and a named provider.
pub proof fn law_default_config_is_valid(c: Config)
    requires
        is_default_config(c),
    ensures
        c.agent.max_context_size > 0,
        c.agent.timeout_ms > 0,
        c.agent.memory_limit_mb > 0,
        c.llm.default_provider@.len() > 0,
        c.logging.level@.len() > 0,
{
    reveal_strlit("openrouter");
    reveal_strlit("info");
}

} // verus!
