//! The settings the command line reads from the YAML configuration file: which
//! provider and model to use, and the provider's key and base URL.
use crate::json::{at_field, field, opt_view, text_at, text_of, Json, JsonV};
use crate::text::same_text;
use vstd::prelude::*;

verus! {

/// The provider used when the file names none.
pub open spec fn default_provider() -> Seq<char> {
    "openrouter"@
}

/// The model used when the file names none.
pub open spec fn default_model() -> Seq<char> {
    "meta-llama/llama-2-70b-chat"@
}

/// The base URL used when the provider's section names none.
pub open spec fn default_api_base() -> Seq<char> {
    "https://openrouter.ai/api/v1"@
}

/// A text setting, or its default.
pub open spec fn text_or(t: Option<Seq<char>>, default: Seq<char>) -> Seq<char> {
    match t {
        Some(s) => s,
        None => default,
    }
}

/// The value at `agents.defaults.<key>` of a configuration document.
pub open spec fn agent_default(config: JsonV, key: Seq<char>) -> Option<JsonV> {
    field(field(field(Some(config), "agents"@), "defaults"@), key)
}

/// The value at `providers.<provider>.<key>` of a configuration document.
pub open spec fn provider_setting(config: JsonV, provider: Seq<char>, key: Seq<char>) -> Option<JsonV> {
    field(field(field(Some(config), "providers"@), provider), key)
}

/// The settings of the agent command.
#[derive(Debug, Clone)]
pub struct AgentSettings {
    pub provider: String,
    pub model: String,
    pub api_key: String,
    pub api_base: String,
}

/// Copies a text setting, or the default.
fn text_setting(v: Option<&Json>, default: &str) -> (r: String)
    ensures
        r@ == text_or(text_of(opt_view(v)), default@),
{
    match text_at(v) {
        Some(t) => t.clone(),
        None => default.to_owned(),
    }
}

/// Reads the agent settings from a configuration document: provider and model from
/// `agents.defaults` (defaults `openrouter` and `meta-llama/llama-2-70b-chat`), key and
/// base URL from the provider's section under `providers` (defaults empty and
/// `https://openrouter.ai/api/v1`). Settings that are not text count as missing.
pub fn agent_settings(config: &Json) -> (r: AgentSettings)
    ensures
        r.provider@ == text_or(text_of(agent_default(config@, "provider"@)), default_provider()),
        r.model@ == text_or(text_of(agent_default(config@, "model"@)), default_model()),
        r.api_key@ == text_or(text_of(provider_setting(config@, r.provider@, "api_key"@)), Seq::empty()),
        r.api_base@ == text_or(text_of(provider_setting(config@, r.provider@, "api_base"@)), default_api_base()),
{
    let defaults = at_field(at_field(Some(config), "agents"), "defaults");
    let provider = text_setting(at_field(defaults, "provider"), "openrouter");
    let model = text_setting(at_field(defaults, "model"), "meta-llama/llama-2-70b-chat");
    let section = at_field(at_field(Some(config), "providers"), provider.as_str());
    let api_key = text_setting(at_field(section, "api_key"), "");
    proof {
        reveal_strlit("");
    }
    assert(""@ =~= Seq::<char>::empty());
    let api_base = text_setting(at_field(section, "api_base"), "https://openrouter.ai/api/v1");
    AgentSettings { provider, model, api_key, api_base }
}

/// Whether a provider needs an API key: every one but the local servers `ollama` and
/// `vllm`.
pub open spec fn needs_api_key(provider: Seq<char>) -> bool {
    provider != "ollama"@ && provider != "vllm"@
}

impl AgentSettings {
    /// Whether a key that the provider needs is missing, which stops the agent command.
    /// The local providers `ollama` and `vllm` run without one.
    pub fn key_missing(&self) -> (r: bool)
        ensures
            r == (needs_api_key(self.provider@) && self.api_key@.len() == 0),
    {
        let local = same_text(self.provider.as_str(), "ollama") || same_text(self.provider.as_str(), "vllm");
        !local && self.api_key.as_str().is_empty()
    }
}

} // verus!
