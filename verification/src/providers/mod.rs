//! Upstream LLM providers: which kinds exist, how one is chosen for a
//! configuration, and the provider-side logic that does not touch the network.
pub mod sse;
pub mod anthropic;
pub mod openai;
pub mod string_map;
pub mod registry;

use vstd::prelude::*;
use crate::error::MantiError;
use crate::text::{str_eq, starts_with_str};

verus! {

/// The kind of an upstream provider.
#[derive(Debug, Clone)]
pub enum ProviderType {
    OpenAI,
    Anthropic,
    Google,
    Azure,
    Custom(String),
}

/// How to reach a provider.
#[derive(Debug, Clone)]
pub struct ProviderConfig {
    pub provider_type: ProviderType,
    pub api_key: String,
    pub base_url: Option<String>,
    pub organization: Option<String>,
    pub extra_params: Vec<(String, String)>,
}

/// A model a provider serves, and what it costs.
#[derive(Debug)]
pub struct ModelConfig {
    pub id: String,
    pub provider: String,
    /// USD per thousand input tokens, as the bit pattern of an `f64`.
    pub input_cost_per_1k: u64,
    /// USD per thousand output tokens, as the bit pattern of an `f64`.
    pub output_cost_per_1k: u64,
    pub max_context: i32,
    pub supports_tools: bool,
    pub supports_vision: bool,
}

pub struct ModelConfigView {
    pub id: Seq<char>,
    pub provider: Seq<char>,
    pub input_cost_per_1k: u64,
    pub output_cost_per_1k: u64,
    pub max_context: i32,
    pub supports_tools: bool,
    pub supports_vision: bool,
}

impl DeepView for ModelConfig {
    type V = ModelConfigView;

    open spec fn deep_view(&self) -> ModelConfigView {
        ModelConfigView {
            id: self.id@,
            provider: self.provider@,
            input_cost_per_1k: self.input_cost_per_1k,
            output_cost_per_1k: self.output_cost_per_1k,
            max_context: self.max_context,
            supports_tools: self.supports_tools,
            supports_vision: self.supports_vision,
        }
    }
}

impl ModelConfig {
    /// A copy of the configuration.
    pub fn duplicate(&self) -> (r: ModelConfig)
        ensures
            r.deep_view() == self.deep_view(),
    {
        ModelConfig {
            id: self.id.clone(),
            provider: self.provider.clone(),
            input_cost_per_1k: self.input_cost_per_1k,
            output_cost_per_1k: self.output_cost_per_1k,
            max_context: self.max_context,
            supports_tools: self.supports_tools,
            supports_vision: self.supports_vision,
        }
    }
}

/// The providers that have an implementation.
#[derive(Debug, Clone, Copy, PartialEq, Eq, Structural)]
pub enum ProviderKind {
    OpenAI,
    Anthropic,
}

/// The name each implemented provider reports.
pub open spec fn kind_name(k: ProviderKind) -> Seq<char> {
    match k {
        ProviderKind::OpenAI => "openai"@,
        ProviderKind::Anthropic => "anthropic"@,
    }
}

impl ProviderKind {
    /// The name the provider reports.
    pub fn name(&self) -> (r: &'static str)
        ensures
            r@ == kind_name(*self),
    {
        match self {
            ProviderKind::OpenAI => "openai",
            ProviderKind::Anthropic => "anthropic",
        }
    }
}

/// An OpenAI model known without configuration: tools are supported; the
/// prices are `f64` bit patterns of USD per thousand tokens.
pub open spec fn openai_builtin(id: Seq<char>, input: u64, output: u64, max_context: i32, vision: bool) -> ModelConfigView {
    ModelConfigView {
        id,
        provider: "openai"@,
        input_cost_per_1k: input,
        output_cost_per_1k: output,
        max_context,
        supports_tools: true,
        supports_vision: vision,
    }
}

/// The OpenAI models known without configuration, in order: gpt-4o
/// (0.0025/0.01), gpt-4o-mini (0.00015/0.0006), gpt-4-turbo (0.01/0.03),
/// gpt-4 (0.03/0.06) and gpt-3.5-turbo (0.0005/0.0015).
pub open spec fn openai_builtin_models() -> Seq<ModelConfigView> {
    seq![
        openai_builtin("gpt-4o"@, 0x3f647ae147ae147b, 0x3f847ae147ae147b, 128000, true),
        openai_builtin("gpt-4o-mini"@, 0x3f23a92a30553261, 0x3f43a92a30553261, 128000, true),
        openai_builtin("gpt-4-turbo"@, 0x3f847ae147ae147b, 0x3f9eb851eb851eb8, 128000, true),
        openai_builtin("gpt-4"@, 0x3f9eb851eb851eb8, 0x3faeb851eb851eb8, 8192, false),
        openai_builtin("gpt-3.5-turbo"@, 0x3f40624dd2f1a9fc, 0x3f589374bc6a7efa, 16385, false),
    ]
}

fn openai_model(id: &str, input: u64, output: u64, max_context: i32, vision: bool) -> (r: ModelConfig)
    ensures
        r.deep_view() == openai_builtin(id@, input, output, max_context, vision),
{
    ModelConfig {
        id: String::from_str(id),
        provider: String::from_str("openai"),
        input_cost_per_1k: input,
        output_cost_per_1k: output,
        max_context,
        supports_tools: true,
        supports_vision: vision,
    }
}

/// The OpenAI models known without configuration.
pub fn openai_models() -> (r: Vec<ModelConfig>)
    ensures
        r.deep_view() == openai_builtin_models(),
{
    let mut v: Vec<ModelConfig> = Vec::new();
    v.push(openai_model("gpt-4o", 0x3f647ae147ae147b, 0x3f847ae147ae147b, 128000, true));
    v.push(openai_model("gpt-4o-mini", 0x3f23a92a30553261, 0x3f43a92a30553261, 128000, true));
    v.push(openai_model("gpt-4-turbo", 0x3f847ae147ae147b, 0x3f9eb851eb851eb8, 128000, true));
    v.push(openai_model("gpt-4", 0x3f9eb851eb851eb8, 0x3faeb851eb851eb8, 8192, false));
    v.push(openai_model("gpt-3.5-turbo", 0x3f40624dd2f1a9fc, 0x3f589374bc6a7efa, 16385, false));
    assert(v.deep_view() =~= openai_builtin_models());
    v
}

/// Chooses the implementation for a provider configuration.
pub struct ProviderFactory;

/// The text `format!("{:?}", s)` gives for a string: quoted and escaped.
pub uninterp spec fn debug_quoted(s: Seq<char>) -> Seq<char>;

/// Calls `format!("{:?}", s)`.
#[verifier::external_body]
fn debug_quote(s: &str) -> (r: String)
    ensures
        r@ == debug_quoted(s@),
{
    format!("{:?}", s)
}

/// The `Debug` text of a provider type.
pub open spec fn provider_type_debug(t: ProviderType) -> Seq<char> {
    match t {
        ProviderType::OpenAI => "OpenAI"@,
        ProviderType::Anthropic => "Anthropic"@,
        ProviderType::Google => "Google"@,
        ProviderType::Azure => "Azure"@,
        ProviderType::Custom(s) => "Custom("@ + debug_quoted(s@) + ")"@,
    }
}

/// The implementation for each provider type, or the message of the
/// provider error for a type without one.
pub open spec fn factory_choice(t: ProviderType) -> Result<ProviderKind, Seq<char>> {
    match t {
        ProviderType::OpenAI => Ok(ProviderKind::OpenAI),
        ProviderType::Anthropic => Ok(ProviderKind::Anthropic),
        _ => Err("Provider type "@ + provider_type_debug(t) + " not implemented"@),
    }
}

fn provider_type_debug_text(t: &ProviderType) -> (r: String)
    ensures
        r@ == provider_type_debug(*t),
{
    match t {
        ProviderType::OpenAI => "OpenAI".to_string(),
        ProviderType::Anthropic => "Anthropic".to_string(),
        ProviderType::Google => "Google".to_string(),
        ProviderType::Azure => "Azure".to_string(),
        ProviderType::Custom(s) => {
            let mut m = "Custom(".to_string();
            let q = debug_quote(s.as_str());
            m.append(q.as_str());
            m.append(")");
            m
        },
    }
}

impl ProviderFactory {
    /// The implementation for `config`: OpenAI and Anthropic have one; any
    /// other type is a provider error.
    pub fn create(config: &ProviderConfig) -> (r: Result<ProviderKind, MantiError>)
        ensures
            match factory_choice(config.provider_type) {
                Ok(k) => r == Ok::<ProviderKind, MantiError>(k),
                Err(m) => r matches Err(MantiError::Provider(e)) && e@ == m,
            },
    {
        match &config.provider_type {
            ProviderType::OpenAI => Ok(ProviderKind::OpenAI),
            ProviderType::Anthropic => Ok(ProviderKind::Anthropic),
            other => {
                let mut m = "Provider type ".to_string();
                let d = provider_type_debug_text(other);
                m.append(d.as_str());
                m.append(" not implemented");
                Err(MantiError::Provider(m))
            },
        }
    }
}

/// The provider type a stored configuration names: the known names map to
/// their type, any other name is a custom type of that name.
pub fn provider_type_from_name(name: &str) -> (r: ProviderType)
    ensures
        match r {
            ProviderType::OpenAI => name@ == "openai"@,
            ProviderType::Anthropic => name@ == "anthropic"@,
            ProviderType::Google => name@ == "google"@,
            ProviderType::Azure => false,
            ProviderType::Custom(s) => s@ == name@ && name@ != "openai"@ && name@ != "anthropic"@ && name@ != "google"@,
        },
{
    if str_eq(name, "openai") {
        ProviderType::OpenAI
    } else if str_eq(name, "anthropic") {
        ProviderType::Anthropic
    } else if str_eq(name, "google") {
        ProviderType::Google
    } else {
        ProviderType::Custom(String::from_str(name))
    }
}

/// The name and runtime configuration under which a stored provider is
/// registered, given its decrypted API key; an inactive provider is not
/// registered.
pub fn provider_registration(
    stored: &crate::models::provider_config::ProviderConfig,
    api_key: String,
) -> (r: Option<(String, ProviderConfig)>)
    ensures
        r is Some <==> stored.is_active,
        r matches Some((name, c)) ==> {
            &&& name@ == stored.name@
            &&& c.api_key@ == api_key@
            &&& c.base_url.deep_view() == stored.base_url.deep_view()
            &&& c.organization is None
            &&& c.extra_params@.len() == 0
            &&& match c.provider_type {
                ProviderType::OpenAI => stored.provider_type@ == "openai"@,
                ProviderType::Anthropic => stored.provider_type@ == "anthropic"@,
                ProviderType::Google => stored.provider_type@ == "google"@,
                ProviderType::Azure => false,
                ProviderType::Custom(t) => t@ == stored.provider_type@ && t@ != "openai"@ && t@ != "anthropic"@
                    && t@ != "google"@,
            }
        },
{
    if !stored.is_active {
        return None;
    }
    let provider_type = provider_type_from_name(stored.provider_type.as_str());
    let base_url = match &stored.base_url {
        Some(u) => Some(u.clone()),
        None => None,
    };
    Some((
        stored.name.clone(),
        ProviderConfig { provider_type, api_key, base_url, organization: None, extra_params: Vec::new() },
    ))
}

/// The configuration under which a stored model of the provider named
/// `provider` is registered: an inactive model is not registered, a missing
/// cost counts as zero and a missing context size as 4096 tokens.
pub fn model_registration(provider: &String, model: &crate::models::model::Model) -> (r: Option<ModelConfig>)
    ensures
        r is Some <==> model.is_active,
        r matches Some(c) ==> {
            &&& c.id@ == model.model_id@
            &&& c.provider@ == provider@
            &&& c.input_cost_per_1k == (match model.input_cost_per_1k { Some(b) => b, None => 0u64 })
            &&& c.output_cost_per_1k == (match model.output_cost_per_1k { Some(b) => b, None => 0u64 })
            &&& c.max_context == (match model.max_context { Some(m) => m, None => 4096i32 })
            &&& c.supports_tools == model.supports_tools
            &&& c.supports_vision == model.supports_vision
        },
{
    if !model.is_active {
        return None;
    }
    let input_cost_per_1k = match model.input_cost_per_1k {
        Some(b) => b,
        None => 0,
    };
    let output_cost_per_1k = match model.output_cost_per_1k {
        Some(b) => b,
        None => 0,
    };
    let max_context = match model.max_context {
        Some(m) => m,
        None => 4096,
    };
    Some(ModelConfig {
        id: model.model_id.clone(),
        provider: provider.clone(),
        input_cost_per_1k,
        output_cost_per_1k,
        max_context,
        supports_tools: model.supports_tools,
        supports_vision: model.supports_vision,
    })
}

/// The OpenAI request a provider without a native Messages API serves for a
/// non-streaming Anthropic request: the converted request, not streamed.
pub fn non_streaming_openai_request(request: crate::models::anthropic::AnthropicRequest) -> (r: crate::models::chat::ChatCompletionRequest)
    ensures
        r@ == (crate::models::chat::ChatCompletionRequestView {
            stream: Some(false),
            ..crate::models::conversion::anthropic_to_openai_spec(request@)
        }),
{
    let mut r = crate::models::conversion::anthropic_to_openai(request);
    r.stream = Some(false);
    r
}

/// The configured base URL, or `default` when none is configured.
pub fn base_url_or(configured: &Option<String>, default: &str) -> (r: String)
    ensures
        r@ == match configured {
            Some(u) => u@,
            None => default@,
        },
{
    match configured {
        Some(u) => u.clone(),
        None => String::from_str(default),
    }
}

/// Whether a provider serves `model`: it is one of the provider's listed
/// models, or its name has the provider's family prefix.
pub fn supports_model(known: &Vec<String>, prefix: &str, model: &str) -> (r: bool)
    ensures
        r == (known.deep_view().contains(model@) || prefix@.is_prefix_of(model@)),
{
    let ghost kv = known.deep_view();
    let mut i: usize = 0;
    while i < known.len()
        invariant
            kv == known.deep_view(),
            i <= known.len(),
            forall|j: int| 0 <= j < i ==> kv[j] != model@,
        decreases known.len() - i,
    {
        if str_eq(known[i].as_str(), model) {
            assert(kv[i as int] == model@);
            return true;
        }
        i = i + 1;
    }
    starts_with_str(model, prefix)
}

} // verus!
