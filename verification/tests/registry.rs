use manti::error::MantiError;
use manti::models::chat::ChatCompletionRequest;
use manti::models::provider_config::ProviderConfig as StoredProviderConfig;
use manti::providers::registry::{ModelInstance, ModelRegistry, ProviderRegistry};
use manti::providers::string_map::StringMap;
use manti::providers::{provider_registration, ModelConfig, ProviderType};

fn model(id: &str) -> ModelConfig {
    ModelConfig {
        id: id.to_string(),
        provider: "p".to_string(),
        input_cost_per_1k: 0.5f64.to_bits(),
        output_cost_per_1k: 1.5f64.to_bits(),
        max_context: 4096,
        supports_tools: true,
        supports_vision: false,
    }
}

#[test]
fn string_map_keeps_order_and_last_value() {
    let mut m: StringMap<i32> = StringMap::new();
    m.insert("b".to_string(), 1);
    m.insert("a".to_string(), 2);
    m.insert("b".to_string(), 3);
    assert_eq!(m.keys(), vec!["b".to_string(), "a".to_string()]);
    assert_eq!(m.get("b"), Some(&3));
    assert_eq!(m.remove("b"), Some(3));
    assert_eq!(m.get("b"), None);
    assert_eq!(m.remove("zz"), None);
    assert_eq!(m.len(), 1);
}

#[test]
fn provider_registry_routes_models() {
    let mut reg: ProviderRegistry<&'static str> = ProviderRegistry::new();
    reg.register("main".to_string(), "P1", vec![model("gpt-4o")], "gpt-".to_string());
    reg.register("alt".to_string(), "P2", vec![model("opus-x")], "opus-".to_string());
    assert_eq!(reg.get_provider_for_model("gpt-4o"), Some(&"P1"));
    assert_eq!(reg.get_provider_for_model("opus-x"), Some(&"P2"));
    assert_eq!(reg.get_provider_for_model("gpt-5"), Some(&"P1"));
    assert_eq!(reg.get_provider_for_model("llama"), None);
    assert_eq!(reg.list_providers(), vec!["main".to_string(), "alt".to_string()]);
    assert_eq!(reg.get_all_models().len(), 2);
    reg.unregister("main");
    assert_eq!(reg.get_provider("main"), None);
    assert_eq!(reg.get_provider_for_model("gpt-4o"), None);
    assert_eq!(reg.get_provider_for_model("opus-x"), Some(&"P2"));
}

#[test]
fn model_registry_binds_models_to_providers() {
    let mut reg: ModelRegistry<String> = ModelRegistry::new();
    reg.register_provider("primary".to_string(), "handle".to_string(), "openai".to_string(), vec![model("gpt-4o")]);
    assert!(reg.has_model("gpt-4o"));
    assert!(reg.register_model("primary", model("gpt-4o-mini")).is_ok());
    match reg.register_model("missing", model("x")) {
        Err(MantiError::NotFound(m)) => assert_eq!(m, "missing"),
        _ => panic!(),
    }
    assert!(!reg.has_model("x"));
    let inst = reg.get_model("gpt-4o-mini").unwrap();
    assert_eq!(inst.provider, "handle");
    assert_eq!(inst.model_type, "gpt-4o-mini");
    let all = reg.get_all_models();
    assert_eq!(all.len(), 2);
    assert_eq!((all[0].id.as_str(), all[0].owned_by.as_str(), all[0].object.as_str()), ("gpt-4o", "openai", "model"));
    assert_eq!(reg.list_model_names(), vec!["gpt-4o".to_string(), "gpt-4o-mini".to_string()]);
}

#[test]
fn model_instance_rewrites_model_and_reads_stream_flag() {
    let inst = ModelInstance::new("alias".to_string(), "real-model".to_string(), (), model("real-model"));
    let req = ChatCompletionRequest {
        model: "alias".to_string(),
        messages: vec![],
        temperature: None,
        top_p: None,
        n: None,
        stream: Some(true),
        stop: None,
        max_tokens: None,
        max_completion_tokens: None,
        presence_penalty: None,
        frequency_penalty: None,
        logit_bias: None,
        user: None,
        seed: None,
        tools: None,
        tool_choice: None,
        response_format: None,
    };
    let (r, streaming) = inst.prepare_request(req);
    assert_eq!(r.model, "real-model");
    assert!(streaming);
}

#[test]
fn stored_providers_register_when_active() {
    let mut stored = StoredProviderConfig::new(1, "anthropic".to_string(), "main".to_string(), "enc".to_string());
    stored.base_url = Some("http://h".to_string());
    let (name, cfg) = provider_registration(&stored, "key".to_string()).unwrap();
    assert_eq!(name, "main");
    assert!(matches!(cfg.provider_type, ProviderType::Anthropic));
    assert_eq!(cfg.base_url.as_deref(), Some("http://h"));
    assert_eq!(cfg.api_key, "key");
    stored.is_active = false;
    assert!(provider_registration(&stored, "key".to_string()).is_none());
}

#[test]
fn provider_registration_binds_each_model_and_keeps_others() {
    let mut reg: ModelRegistry<String> = ModelRegistry::new();
    reg.register_provider("a".to_string(), "ha".to_string(), "openai".to_string(), vec![model("x"), model("y")]);
    let mut second = model("y");
    second.max_context = 8;
    let mut first = model("y");
    first.max_context = 4;
    reg.register_provider("b".to_string(), "hb".to_string(), "anthropic".to_string(), vec![first, second]);
    let x = reg.get_model("x").unwrap();
    assert_eq!((x.provider.as_str(), x.config.max_context), ("ha", 4096));
    let y = reg.get_model("y").unwrap();
    assert_eq!((y.name.as_str(), y.model_type.as_str(), y.provider.as_str()), ("y", "y", "hb"));
    assert_eq!(y.config.max_context, 8);
    let owners: Vec<String> = reg.get_all_models().into_iter().map(|m| m.owned_by).collect();
    assert_eq!(owners, vec!["openai".to_string(), "anthropic".to_string()]);
}

#[test]
fn provider_listing_tracks_registrations() {
    let mut reg: ProviderRegistry<&'static str> = ProviderRegistry::new();
    assert!(reg.list_providers().is_empty());
    reg.register("a".to_string(), "P1", vec![model("m1")], "m".to_string());
    reg.register("b".to_string(), "P2", vec![model("n1")], "n".to_string());
    reg.register("c".to_string(), "P3", vec![], "o".to_string());
    reg.register("a".to_string(), "P4", vec![model("m1")], "m".to_string());
    assert_eq!(reg.list_providers(), vec!["a".to_string(), "b".to_string(), "c".to_string()]);
    assert_eq!(reg.get_provider("a"), Some(&"P4"));
    reg.unregister("b");
    assert_eq!(reg.list_providers(), vec!["a".to_string(), "c".to_string()]);
    reg.unregister("zz");
    assert_eq!(reg.list_providers(), vec!["a".to_string(), "c".to_string()]);
    reg.register("b".to_string(), "P5", vec![], "n".to_string());
    assert_eq!(reg.list_providers(), vec!["a".to_string(), "c".to_string(), "b".to_string()]);
}

#[test]
fn model_listing_starts_empty() {
    let reg: ModelRegistry<String> = ModelRegistry::new();
    assert!(reg.list_model_names().is_empty());
    assert!(reg.get_all_models().is_empty());
}
