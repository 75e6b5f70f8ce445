use manti::clock::Timestamp;
use manti::error::MantiError;
use manti::json::parse_string_list;
use manti::models::api_key::{model_in_allowlist, ApiKey, ApiKeyInfo, CreateApiKey};
use manti::models::money::Money;
use manti::models::provider_config::ProviderConfig;
use manti::models::user::{hash_password, verify_password, CreateUser, User};

fn ts(secs: i64) -> Timestamp {
    Timestamp { secs, nanos: 0 }
}

fn key(allowed: Option<&str>, expires: Option<Timestamp>, active: bool) -> ApiKey {
    ApiKey {
        id: 1,
        user_id: 2,
        name: "k".to_string(),
        key: "sk-manti-x".to_string(),
        is_active: active,
        last_used: None,
        expires_at: expires,
        created_at: ts(0),
        updated_at: ts(0),
        rate_limit_rpm: None,
        allowed_models: allowed.map(|s| s.to_string()),
    }
}

#[test]
fn generated_key_has_prefix_and_charset() {
    let k = CreateApiKey::generate(5, "mine".to_string(), None, None, None);
    assert!(k.key.starts_with("sk-manti-"));
    assert_eq!(k.key.len(), 57);
    assert!(k.key[9..].chars().all(|c| c.is_ascii_alphanumeric()));
    assert_eq!(k.rate_limit_rpm, Some(60));
    assert!(k.is_active);
    assert!(k.allowed_models.is_none());
    let other = CreateApiKey::generate(5, "mine".to_string(), None, None, None);
    assert_ne!(k.key, other.key);
}

#[test]
fn generated_allowlist_permits_exactly_listed_models() {
    let k = CreateApiKey::generate(5, "n".to_string(), Some(ts(10)), Some(7), Some(vec!["gpt-4o".to_string(), "sonnet-3".to_string()]));
    assert_eq!(k.allowed_models.as_deref(), Some("[\"gpt-4o\",\"sonnet-3\"]"));
    assert_eq!(k.rate_limit_rpm, Some(7));
    assert_eq!(k.expires_at, Some(ts(10)));
    let stored = key(k.allowed_models.as_deref(), None, true);
    assert!(stored.is_model_allowed("gpt-4o"));
    assert!(stored.is_model_allowed("sonnet-3"));
    assert!(!stored.is_model_allowed("gpt-4"));
    assert_eq!(stored.get_allowed_models(), Some(vec!["gpt-4o".to_string(), "sonnet-3".to_string()]));
}

#[test]
fn unreadable_or_missing_allowlist_permits_everything() {
    assert!(key(None, None, true).is_model_allowed("anything"));
    assert!(key(Some("{\"not\":\"a list\"}"), None, true).is_model_allowed("anything"));
    assert!(key(Some("{\"not\":\"a list\"}"), None, true).get_allowed_models().is_none());
    assert!(model_in_allowlist(None, "x"));
    assert!(!model_in_allowlist(Some(vec![]), "x"));
    assert_eq!(parse_string_list("[\"a\"]"), Some(vec!["a".to_string()]));
}

#[test]
fn expiry_and_validity() {
    let k = key(None, Some(ts(100)), true);
    assert!(!k.is_expired_at(ts(100)));
    assert!(k.is_expired_at(Timestamp { secs: 100, nanos: 1 }));
    assert!(k.is_valid_at(ts(50)));
    assert!(!k.is_valid_at(ts(101)));
    assert!(!key(None, None, false).is_valid_at(ts(0)));
    assert!(key(None, None, true).is_valid());
    assert!(!key(None, None, true).is_expired());
    assert!(key(None, Some(ts(1)), true).is_expired());
    let info = ApiKeyInfo::from_api_key(key(Some("[\"m\"]"), None, true));
    assert_eq!(info.allowed_models, Some(vec!["m".to_string()]));
}

#[test]
fn password_round_trip() {
    let u = CreateUser::new("a@b.c".to_string(), "al".to_string(), "s3cret!", true).unwrap();
    assert!(u.is_active && u.is_admin);
    assert!(u.password_hash.starts_with("$argon2"));
    assert_eq!(verify_password("s3cret!", &u.password_hash).unwrap(), true);
    assert_eq!(verify_password("wrong", &u.password_hash).unwrap(), false);
    match verify_password("s3cret!", "not a hash") {
        Err(MantiError::Auth(m)) => assert!(m.starts_with("Invalid password hash: ")),
        _ => panic!(),
    }
    let h = hash_password("x").unwrap();
    assert_ne!(h, hash_password("x").unwrap());
}

#[test]
fn user_checks_password_and_records_login() {
    let mut u = User::new("a@b.c".to_string(), "al".to_string(), "pw").unwrap();
    assert!(u.verify_password("pw"));
    assert!(!u.verify_password("pW"));
    u.password_hash = "garbage".to_string();
    assert!(!u.verify_password("pw"));
    u.update_last_login_at(ts(42));
    assert_eq!(u.last_login, Some(ts(42)));
    assert_eq!(u.updated_at, ts(42));
}

#[test]
fn money_compares_by_value_and_prints() {
    let a = Money::from_parts(150, 2).unwrap();
    let b = Money::from_parts(15, 1).unwrap();
    let c = Money::from_parts(2, 0).unwrap();
    assert!(a.le(&b) && b.le(&a));
    assert!(a.le(&c) && !c.le(&a));
    assert!(Money::from_parts(-1, 0).unwrap().le(&Money::zero()));
    assert_eq!(a.to_text(), "1.50");
    assert_eq!(Money::zero().to_text(), "0");
    assert!(Money::from_parts(1, 29).is_none());
    assert!(Money::from_parts(1i128 << 96, 0).is_none());
}

#[test]
fn api_key_encryption_round_trip() {
    let enc = ProviderConfig::encrypt_api_key("sk-live-ÄÖ-123", "secret");
    assert_eq!(ProviderConfig::decrypt_api_key(&enc, "secret"), Ok("sk-live-ÄÖ-123".to_string()));
    assert_eq!(
        ProviderConfig::decrypt_api_key(&enc, "other"),
        Err("Decryption failed: aead::Error".to_string())
    );
    assert_ne!(enc, ProviderConfig::encrypt_api_key("sk-live-ÄÖ-123", "secret"));
    assert_eq!(
        ProviderConfig::decrypt_api_key("AAAA", "secret"),
        Err("Invalid encrypted data: too short".to_string())
    );
    assert!(ProviderConfig::decrypt_api_key("!!", "secret").unwrap_err().starts_with("Base64 decode error: "));
}

#[test]
fn provider_types_and_new_configs() {
    assert!(ProviderConfig::is_valid_provider_type("openai"));
    assert!(ProviderConfig::is_valid_provider_type("google"));
    assert!(!ProviderConfig::is_valid_provider_type("azure"));
    let c = ProviderConfig::new(3, "openai".to_string(), "main".to_string(), "enc".to_string());
    assert!(c.is_active);
    assert_eq!(c.priority, 0);
    assert_eq!(c.used_quota, 0);
    assert_eq!(c.created_at, c.updated_at);
}

/// The text the library's contract gives for an amount, written out here so
/// that the printed text can be held against it.
fn stated_decimal_text(m: i128, scale: usize) -> String {
    let digits = if m == 0 { String::new() } else { m.unsigned_abs().to_string() };
    let padded = if digits.len() < scale { "0".repeat(scale - digits.len()) + &digits } else { digits };
    let cut = padded.len() - scale;
    let whole = &padded[..cut];
    let mut out = String::new();
    if m < 0 {
        out.push('-');
    }
    out.push_str(if whole.is_empty() { "0" } else { whole });
    if scale > 0 {
        out.push('.');
        out.push_str(&padded[cut..]);
    }
    out
}

#[test]
fn amounts_print_as_stated() {
    let max: i128 = 0xFFFF_FFFF_FFFF_FFFF_FFFF_FFFF;
    for m in [0i128, 1, -1, 5, -5, 10, 125, -125, 100000, 123456789, -987654321012345, max, -max] {
        for scale in [0u32, 1, 2, 3, 5, 9, 28] {
            let money = Money::from_parts(m, scale).unwrap();
            assert_eq!(money.to_text(), stated_decimal_text(m, scale as usize), "{} {}", m, scale);
        }
    }
    assert_eq!(Money::from_parts(0, 2).unwrap().to_text(), "0.00");
    assert_eq!(Money::from_parts(-5, 2).unwrap().to_text(), "-0.05");
}

/// The hyphenated text the library's contract gives for a UUID value.
fn stated_uuid_text(id: u128) -> String {
    let h = format!("{:032x}", id);
    format!("{}-{}-{}-{}-{}", &h[0..8], &h[8..12], &h[12..16], &h[16..20], &h[20..32])
}

#[test]
fn request_ids_are_hyphenated_uuids() {
    for id in [0u128, 1, 0xdead_beef, u128::MAX, 0x0123_4567_89ab_cdef_0123_4567_89ab_cdef] {
        assert_eq!(uuid::Uuid::from_u128(id).to_string(), stated_uuid_text(id));
    }
    let u = manti::models::usage::CreateUsage::new(1, None, "m".to_string(), "p".to_string(), 1, 2, Money::zero());
    let parsed = uuid::Uuid::parse_str(&u.request_id).unwrap();
    assert_eq!(stated_uuid_text(parsed.as_u128()), u.request_id);
}

#[test]
fn ordinary_passwords_always_hash() {
    for p in ["", "a", "correct horse battery staple", "пароль", "🔑🔑🔑"] {
        let h = hash_password(p).unwrap();
        assert_eq!(verify_password(p, &h).unwrap(), true);
    }
    assert!(User::new("x@y.z".to_string(), "x".to_string(), "").is_ok());
    assert!(CreateUser::new("x@y.z".to_string(), "x".to_string(), "", false).is_ok());
}
