use base64::Engine;
use manti::api::{llm_step, LlmAction, LlmEvent, LlmStage};
use manti::models::api_key::key_from_indices;
use manti::providers::{openai_models, ProviderKind};
use manti::api::{api_key_expiry, usage_stats_access, usage_window, SECS_PER_DAY};
use manti::auth::{AuthContext, Claims};
use manti::clock::Timestamp;
use manti::models::billing::{Billing, BillingInfo, BillingItem};
use manti::models::model::{CreateModel, CreateModelRequest, Model, ModelInfo};
use manti::models::money::Money;
use manti::models::provider_config::{
    groups_allow, CreateProviderConfig, CreateProviderConfigRequest, ProviderConfig, ProviderConfigInfo,
};
use manti::providers::model_registration;

fn ts(secs: i64) -> Timestamp {
    Timestamp { secs, nanos: 0 }
}

fn strings(v: &[&str]) -> Vec<String> {
    v.iter().map(|s| s.to_string()).collect()
}

fn stored_model(active: bool, input: Option<f64>, max_context: Option<i32>) -> Model {
    Model {
        id: 5,
        provider_config_id: 6,
        model_id: "gpt-4o".to_string(),
        display_name: Some("GPT".to_string()),
        input_cost_per_1k: input.map(f64::to_bits),
        output_cost_per_1k: None,
        max_context,
        supports_tools: true,
        supports_vision: false,
        is_active: active,
        created_at: ts(1),
        updated_at: ts(2),
    }
}

fn provider_request(provider_type: &str, key: &str) -> CreateProviderConfigRequest {
    CreateProviderConfigRequest {
        user_id: None,
        provider_type: provider_type.to_string(),
        name: "main".to_string(),
        api_key: key.to_string(),
        base_url: None,
        priority: None,
        rate_limit: Some(10),
        monthly_quota: None,
        allowed_groups: None,
    }
}

#[test]
fn provider_groups_decide_visibility() {
    assert!(groups_allow(&vec![], &vec![]));
    assert!(groups_allow(&vec![], &strings(&["staff"])));
    assert!(groups_allow(&strings(&["a", "staff"]), &strings(&["x", "staff"])));
    assert!(!groups_allow(&strings(&["a", "b"]), &strings(&["c"])));
    assert!(!groups_allow(&strings(&["a"]), &vec![]));
}

#[test]
fn provider_request_is_encrypted_and_defaulted() {
    let c = CreateProviderConfig::from_request(provider_request("anthropic", "sk-upstream"), "secret").unwrap();
    assert_eq!(c.provider_type, "anthropic");
    assert_eq!(c.name, "main");
    assert_ne!(c.api_key_encrypted, "sk-upstream");
    assert_eq!(ProviderConfig::decrypt_api_key(&c.api_key_encrypted, "secret").unwrap(), "sk-upstream");
    assert_eq!(c.priority, 0);
    assert!(c.is_active);
    assert_eq!(c.rate_limit, Some(10));
    assert_eq!(c.used_quota, 0);
    assert!(c.allowed_groups.is_empty());

    let mut req = provider_request("openai", "k");
    req.priority = Some(7);
    req.allowed_groups = Some(strings(&["staff"]));
    let c = CreateProviderConfig::from_request(req, "secret").unwrap();
    assert_eq!(c.priority, 7);
    assert_eq!(c.allowed_groups, strings(&["staff"]));

    assert!(CreateProviderConfig::from_request(provider_request("cohere", "k"), "secret").is_none());
}

#[test]
fn provider_info_hides_the_key() {
    let mut stored = ProviderConfig::new(3, "openai".to_string(), "p".to_string(), "enc".to_string());
    stored.priority = 4;
    stored.allowed_groups = strings(&["g"]);
    let info = ProviderConfigInfo::from_config(stored.clone());
    assert_eq!(info.id, stored.id);
    assert_eq!(info.user_id, 3);
    assert_eq!(info.name, "p");
    assert_eq!(info.priority, 4);
    assert!(info.is_active);
    assert_eq!(info.created_at, stored.created_at);
}

#[test]
fn stored_models_register_with_defaults() {
    let provider = "main".to_string();
    let c = model_registration(&provider, &stored_model(true, Some(0.5), None)).unwrap();
    assert_eq!(c.id, "gpt-4o");
    assert_eq!(c.provider, "main");
    assert_eq!(f64::from_bits(c.input_cost_per_1k), 0.5);
    assert_eq!(c.output_cost_per_1k, 0.0f64.to_bits());
    assert_eq!(c.max_context, 4096);
    assert!(c.supports_tools);
    assert!(!c.supports_vision);
    let c = model_registration(&provider, &stored_model(true, None, Some(128000))).unwrap();
    assert_eq!(c.max_context, 128000);
    assert_eq!(c.input_cost_per_1k, 0);
    assert!(model_registration(&provider, &stored_model(false, None, None)).is_none());
}

#[test]
fn model_requests_and_info() {
    let req = CreateModelRequest {
        model_id: "m".to_string(),
        display_name: None,
        input_cost_per_1k: Some(1.0f64.to_bits()),
        output_cost_per_1k: None,
        max_context: Some(10),
        supports_tools: None,
        supports_vision: Some(true),
    };
    let c = CreateModel::from_request(9, req);
    assert_eq!(c.provider_config_id, 9);
    assert_eq!(c.model_id, "m");
    assert!(!c.supports_tools);
    assert!(c.supports_vision);
    assert!(c.is_active);
    assert_eq!(c.max_context, Some(10));

    let info = ModelInfo::from_model(stored_model(true, Some(2.0), Some(3)));
    assert_eq!(info.id, 5);
    assert_eq!(info.provider_config_id, 6);
    assert_eq!(info.display_name.as_deref(), Some("GPT"));
    assert_eq!(info.input_cost_per_1k, Some(2.0f64.to_bits()));
    assert_eq!(info.updated_at, ts(2));
}

#[test]
fn billing_info_carries_the_read_items() {
    let b = Billing {
        id: 1,
        user_id: 2,
        period_start: ts(10),
        period_end: ts(20),
        total_cost: Money::from_parts(125, 2).unwrap(),
        total_tokens: 300,
        total_requests: 3,
        status: "pending".to_string(),
        items: Some("[]".to_string()),
        created_at: ts(30),
        paid_at: None,
    };
    let item = BillingItem {
        model: "m".to_string(),
        provider: "p".to_string(),
        requests: 3,
        prompt_tokens: 100,
        completion_tokens: 200,
        cost: 1.25f64.to_bits(),
    };
    let info = BillingInfo::from_billing(b, Some(vec![item]));
    assert_eq!(info.id, 1);
    assert_eq!(info.status, "pending");
    assert_eq!(info.total_cost.to_text(), "1.25");
    assert_eq!(info.items.as_ref().map(|v| v.len()), Some(1));
    assert_eq!(info.period_end, ts(20));
}

#[test]
fn usage_window_defaults_to_thirty_days() {
    let now = Timestamp { secs: 10_000_000, nanos: 7 };
    let (start, end) = usage_window(None, None, now);
    assert_eq!(end, now);
    assert_eq!(start, Timestamp { secs: 10_000_000 - 30 * 86400, nanos: 7 });
    let (start, end) = usage_window(None, Some(ts(5_000_000)), now);
    assert_eq!(end, ts(5_000_000));
    assert_eq!(start, ts(5_000_000 - 2_592_000));
    let (start, end) = usage_window(Some(ts(1)), Some(ts(2)), now);
    assert_eq!((start, end), (ts(1), ts(2)));
}

#[test]
fn api_key_expiry_counts_days() {
    let now = Timestamp { secs: 1_000, nanos: 3 };
    assert_eq!(api_key_expiry(None, now), None);
    assert_eq!(api_key_expiry(Some(2), now), Some(Timestamp { secs: 1_000 + 2 * SECS_PER_DAY, nanos: 3 }));
    assert_eq!(api_key_expiry(Some(-1), now), Some(Timestamp { secs: 1_000 - 86_400, nanos: 3 }));
}

#[test]
fn usage_statistics_access() {
    let claims = |sub: u128, admin: bool| Claims {
        sub,
        email: "e@x".to_string(),
        username: "u".to_string(),
        is_admin: admin,
        exp: 1,
        iat: 0,
    };
    assert_eq!(usage_stats_access(&AuthContext::User(claims(4, false)), 4), Ok(()));
    assert_eq!(usage_stats_access(&AuthContext::User(claims(4, false)), 5), Err(403));
    assert_eq!(usage_stats_access(&AuthContext::User(claims(4, true)), 5), Ok(()));
    assert_eq!(usage_stats_access(&AuthContext::ApiKey { user_id: 5, api_key_id: 1 }, 5), Ok(()));
    assert_eq!(usage_stats_access(&AuthContext::ApiKey { user_id: 5, api_key_id: 1 }, 6), Err(403));
    assert_eq!(usage_stats_access(&AuthContext::Anonymous, 6), Err(403));
}

#[test]
fn provider_update_replaces_given_fields() {
    let mut c = ProviderConfig::new(3, "openai".to_string(), "p".to_string(), "enc".to_string());
    c.base_url = Some("http://a".to_string());
    c.rate_limit = Some(5);
    let created = c.created_at;
    c.apply_update(
        Some("q".to_string()),
        None,
        Some(None),
        Some(9),
        Some(false),
        None,
        Some(Some(2.5f64.to_bits())),
        Some(strings(&["staff"])),
        ts(99),
    );
    assert_eq!(c.name, "q");
    assert_eq!(c.api_key_encrypted, "enc");
    assert_eq!(c.base_url, None);
    assert_eq!(c.priority, 9);
    assert!(!c.is_active);
    assert_eq!(c.rate_limit, Some(5));
    assert_eq!(c.monthly_quota, Some(2.5f64.to_bits()));
    assert_eq!(c.allowed_groups, strings(&["staff"]));
    assert_eq!(c.created_at, created);
    assert_eq!(c.updated_at, ts(99));
}

#[test]
fn model_update_replaces_given_fields() {
    let mut m = stored_model(true, Some(1.0), Some(100));
    m.apply_update(Some(None), None, Some(Some(3.0f64.to_bits())), Some(None), None, Some(true), Some(false), ts(50));
    assert_eq!(m.display_name, None);
    assert_eq!(m.input_cost_per_1k, Some(1.0f64.to_bits()));
    assert_eq!(m.output_cost_per_1k, Some(3.0f64.to_bits()));
    assert_eq!(m.max_context, None);
    assert!(m.supports_tools);
    assert!(m.supports_vision);
    assert!(!m.is_active);
    assert_eq!(m.created_at, ts(1));
    assert_eq!(m.updated_at, ts(50));
}

#[test]
fn encrypted_key_layout_is_nonce_ciphertext_tag() {
    let e = ProviderConfig::encrypt_api_key("sk-abc", "s");
    let bytes = base64::engine::general_purpose::STANDARD.decode(&e).unwrap();
    assert_eq!(bytes.len(), 12 + 6 + 16);
}

#[test]
fn openai_builtin_models_and_provider_names() {
    let ms = openai_models();
    let ids: Vec<&str> = ms.iter().map(|m| m.id.as_str()).collect();
    assert_eq!(ids, vec!["gpt-4o", "gpt-4o-mini", "gpt-4-turbo", "gpt-4", "gpt-3.5-turbo"]);
    assert_eq!(f64::from_bits(ms[0].input_cost_per_1k), 0.0025);
    assert_eq!(f64::from_bits(ms[1].output_cost_per_1k), 0.0006);
    assert_eq!(f64::from_bits(ms[4].input_cost_per_1k), 0.0005);
    assert_eq!(f64::from_bits(ms[4].output_cost_per_1k), 0.0015);
    assert_eq!(ms[3].max_context, 8192);
    assert!(!ms[3].supports_vision && ms[0].supports_vision && ms.iter().all(|m| m.supports_tools && m.provider == "openai"));
    assert_eq!(ProviderKind::OpenAI.name(), "openai");
    assert_eq!(ProviderKind::Anthropic.name(), "anthropic");
}

#[test]
fn keys_are_spelled_from_charset_indices() {
    let mut idx = vec![0usize; 48];
    idx[0] = 61;
    idx[1] = 26;
    let k = key_from_indices(&idx);
    assert_eq!(k.len(), 9 + 48);
    assert!(k.starts_with("sk-manti-9a"));
    assert!(k[11..].chars().all(|c| c == 'A'));
}

#[test]
fn llm_requests_proceed_in_order() {
    let (s, a) = llm_step(LlmStage::Credentials, LlmEvent::Credentials(true));
    assert_eq!((s, a), (LlmStage::Model, LlmAction::FindModel));
    let (s, a) = llm_step(s, LlmEvent::Model(true));
    assert_eq!((s, a), (LlmStage::Quota, LlmAction::CheckQuota));
    let (s2, a) = llm_step(s, LlmEvent::Quota(false));
    assert_eq!((s2, a), (LlmStage::Finished, LlmAction::Refuse));
    assert_eq!(llm_step(s2, LlmEvent::Provider(true)).1, LlmAction::Ignore);
    let (s, a) = llm_step(s, LlmEvent::Quota(true));
    assert_eq!((s, a), (LlmStage::Provider, LlmAction::CallProvider));
    assert_eq!(llm_step(s, LlmEvent::Provider(true)), (LlmStage::Finished, LlmAction::RecordUsage));
    assert_eq!(llm_step(s, LlmEvent::Provider(false)), (LlmStage::Finished, LlmAction::ReportFailure));
    assert_eq!(llm_step(LlmStage::Credentials, LlmEvent::Quota(true)).1, LlmAction::Ignore);
}
