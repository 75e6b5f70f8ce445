use manti::api::{
    anthropic_quota_refusal, billing_access, count_active_keys, is_valid_email, llm_caller,
    llm_credentials, model_not_found, provider_failure, quota_refusal, stream_failure, u64_text,
    usage_model_name,
};
use manti::auth::{api_key_context, extract_token, is_api_key_token, jwt_context, AuthContext, Claims, JwtConfig};
use manti::clock::Timestamp;
use manti::error::MantiError;
use manti::models::api_key::ApiKey;
use manti::models::billing::{BillingStatus, UserBalance};
use manti::models::money::Money;
use manti::models::user::User;
use manti::quota::checker::{QuotaCheckResult, QuotaChecker};

fn ts(secs: i64) -> Timestamp {
    Timestamp { secs, nanos: 0 }
}

fn claims(admin: bool) -> Claims {
    Claims { sub: 9, email: "e@x".to_string(), username: "u".to_string(), is_admin: admin, exp: 10, iat: 0 }
}

fn user(limit: Option<i32>, quota: Option<Money>, used: Money) -> User {
    User {
        id: 77,
        email: "u@x".to_string(),
        username: "u".to_string(),
        password_hash: String::new(),
        is_active: true,
        is_admin: false,
        created_at: ts(0),
        updated_at: ts(0),
        last_login: None,
        rate_limit_rpm: limit,
        monthly_quota: quota,
        current_month_usage: used,
        user_groups: vec![],
    }
}

fn balance(b: i128, credit: i128) -> Result<Option<UserBalance>, MantiError> {
    Ok(Some(UserBalance {
        user_id: 77,
        balance: Money::from_parts(b, 0).unwrap(),
        credit_limit: Money::from_parts(credit, 0).unwrap(),
        lifetime_usage: Money::zero(),
        updated_at: ts(0),
    }))
}

fn key(allowed: Option<&str>) -> ApiKey {
    ApiKey {
        id: 1,
        user_id: 77,
        name: "k".to_string(),
        key: "sk-manti-x".to_string(),
        is_active: true,
        last_used: None,
        expires_at: None,
        created_at: ts(0),
        updated_at: ts(0),
        rate_limit_rpm: None,
        allowed_models: allowed.map(|s| s.to_string()),
    }
}

#[test]
fn billing_status_names() {
    assert_eq!(BillingStatus::Pending.as_str(), "pending");
    assert_eq!(BillingStatus::Cancelled.as_str(), "cancelled");
}

#[test]
fn auth_context_requirements() {
    let u = AuthContext::User(claims(false));
    let a = AuthContext::User(claims(true));
    let k = AuthContext::ApiKey { user_id: 5, api_key_id: 6 };
    assert_eq!(u.require_auth(), Ok(9));
    assert_eq!(k.require_auth(), Ok(5));
    assert_eq!(AuthContext::Anonymous.require_auth(), Err(401));
    assert!(u.require_user().is_ok());
    assert_eq!(k.require_user().err(), Some(401));
    assert_eq!(u.require_admin().err(), Some(403));
    assert!(a.require_admin().is_ok());
    assert_eq!(AuthContext::Anonymous.require_admin().err(), Some(403));
}

#[test]
fn tokens_come_from_bearer_or_api_key_header() {
    assert_eq!(extract_token(Some("Bearer abc"), Some("xyz")), Some("abc".to_string()));
    assert_eq!(extract_token(Some("Basic abc"), Some("xyz")), Some("xyz".to_string()));
    assert_eq!(extract_token(None, Some("xyz")), Some("xyz".to_string()));
    assert_eq!(extract_token(Some("Basic abc"), None), None);
    assert!(is_api_key_token("sk-manti-abc"));
    assert!(!is_api_key_token("eyJhbGciOi"));
    assert!(matches!(api_key_context(Ok(Some(key(None)))), AuthContext::ApiKey { user_id: 77, api_key_id: 1 }));
    assert!(matches!(api_key_context(Ok(None)), AuthContext::Anonymous));
    assert!(matches!(api_key_context(Err(MantiError::Internal)), AuthContext::Anonymous));
    assert!(matches!(jwt_context(Ok(claims(false))), AuthContext::User(_)));
    assert!(matches!(jwt_context(Err(MantiError::Auth("bad".to_string()))), AuthContext::Anonymous));
}

#[test]
fn jwt_settings_and_claims() {
    let c = JwtConfig::from_values(None, Some("48".to_string()));
    assert_eq!(c.secret, "your-secret-key-here");
    assert_eq!(c.expiration_hours, 48);
    assert_eq!(JwtConfig::from_values(Some("s".to_string()), Some("x1".to_string())).expiration_hours, 24);
    assert_eq!(JwtConfig::from_values(None, Some("-3".to_string())).expiration_hours, -3);
    assert_eq!(JwtConfig::from_values(None, None).expiration_hours, 24);
    let u = user(None, None, Money::zero());
    let cl = c.claims_for_at(&u, Timestamp { secs: 1000, nanos: 5 });
    assert_eq!((cl.sub, cl.iat, cl.exp), (77, 1000, 1000 + 48 * 3600));
    let now_claims = c.claims_for(&u).unwrap();
    assert_eq!(now_claims.exp - now_claims.iat, 48 * 3600);
}

#[test]
fn quota_checks_in_order() {
    let mut q = QuotaChecker::new();
    let u = user(Some(1), None, Money::zero());
    let k = key(Some("[\"gpt-4o\"]"));
    match q.check_quota_at(&u, "sonnet-3", Some(&k), balance(10, 0), 0) {
        QuotaCheckResult::ModelNotAllowed { model } => assert_eq!(model, "sonnet-3"),
        other => panic!("{:?}", other),
    }
    // the refused request was not counted
    assert!(matches!(q.check_quota_at(&u, "gpt-4o", Some(&k), balance(10, 0), 1), QuotaCheckResult::Allowed));
    match q.check_quota_at(&u, "gpt-4o", Some(&k), balance(10, 0), 2) {
        QuotaCheckResult::RateLimited { retry_after_secs } => assert_eq!(retry_after_secs, 59),
        other => panic!("{:?}", other),
    }
    assert!(matches!(q.check_quota_at(&u, "gpt-4o", None, balance(10, 0), 61_000_000_000), QuotaCheckResult::Allowed));
}

#[test]
fn quota_and_balance_refusals() {
    let mut q = QuotaChecker::new();
    let over = user(None, Some(Money::from_parts(500, 2).unwrap()), Money::from_parts(5, 0).unwrap());
    match q.check_quota_at(&over, "m", None, balance(10, 0), 0) {
        QuotaCheckResult::QuotaExceeded { limit, used } => {
            assert_eq!(limit.to_text(), "5.00");
            assert_eq!(used.to_text(), "5");
        }
        other => panic!("{:?}", other),
    }
    let under = user(None, Some(Money::from_parts(6, 0).unwrap()), Money::from_parts(5, 0).unwrap());
    assert!(matches!(q.check_quota_at(&under, "m", None, balance(0, 1), 0), QuotaCheckResult::Allowed));
    assert!(matches!(q.check_quota_at(&under, "m", None, balance(0, 0), 0), QuotaCheckResult::InsufficientBalance { .. }));
    assert!(matches!(q.check_quota_at(&under, "m", None, Ok(None), 0), QuotaCheckResult::InsufficientBalance { .. }));
    assert!(matches!(q.check_quota_at(&under, "m", None, Err(MantiError::Internal), 0), QuotaCheckResult::InsufficientBalance { .. }));
}

#[test]
fn llm_endpoint_error_bodies() {
    let e = llm_caller(&AuthContext::User(claims(false))).unwrap_err();
    assert_eq!(e.code, "jwt_not_allowed");
    let e = llm_caller(&AuthContext::Anonymous).unwrap_err();
    assert_eq!(e.code, "api_key_required");
    assert_eq!(llm_caller(&AuthContext::ApiKey { user_id: 1, api_key_id: 2 }).unwrap(), (1, 2));
    assert_eq!(llm_credentials(None, Some(key(None))).unwrap_err().code, "invalid_api_key");
    assert!(llm_credentials(Some(user(None, None, Money::zero())), Some(key(None))).is_ok());
    let nf = model_not_found("gpt-9");
    assert_eq!((nf.message.as_str(), nf.kind.as_str()), ("Model 'gpt-9' not found", "invalid_request_error"));
    let r = quota_refusal(&QuotaCheckResult::RateLimited { retry_after_secs: 12 }).unwrap();
    assert_eq!((r.code.as_str(), r.retry_after), ("rate_limit_exceeded", Some(12)));
    let r = quota_refusal(&QuotaCheckResult::QuotaExceeded {
        limit: Money::from_parts(10, 0).unwrap(),
        used: Money::from_parts(1025, 2).unwrap(),
    })
    .unwrap();
    assert_eq!(r.message, "Monthly quota exceeded (used: 10.25, limit: 10)");
    assert!(quota_refusal(&QuotaCheckResult::Allowed).is_none());
    let d = anthropic_quota_refusal(&QuotaCheckResult::RateLimited { retry_after_secs: 30 }).unwrap();
    assert_eq!(d.message, "Rate limit exceeded. Retry after 30 seconds.");
    let d = anthropic_quota_refusal(&QuotaCheckResult::ModelNotAllowed { model: "x".to_string() }).unwrap();
    assert_eq!((d.kind.as_str(), d.message.as_str()), ("permission_error", "Model 'x' is not allowed for this API key"));
    let p = provider_failure(&MantiError::Provider("boom".to_string()));
    assert_eq!(p.message, "Provider error: Provider error: boom");
    assert_eq!(stream_failure(&MantiError::RateLimitExceeded).message, "Stream error: Rate limit exceeded");
}

#[test]
fn account_rules() {
    assert!(is_valid_email("a@b"));
    assert!(!is_valid_email("ab"));
    assert_eq!(billing_access(3, 3), Ok(()));
    assert_eq!(billing_access(3, 4), Err(403));
    let mut expired = key(None);
    expired.expires_at = Some(ts(5));
    let mut inactive = key(None);
    inactive.is_active = false;
    assert_eq!(count_active_keys(&vec![key(None), expired, inactive], ts(10)), 1);
    assert_eq!(usage_model_name(&String::new(), &"req".to_string()), "req");
    assert_eq!(usage_model_name(&"rep".to_string(), &"req".to_string()), "rep");
    assert_eq!(u64_text(0), "0");
    assert_eq!(u64_text(1234567890), "1234567890");
    assert_eq!(u64_text(u64::MAX), u64::MAX.to_string());
}

#[test]
fn error_status_codes_and_messages() {
    assert_eq!(MantiError::Auth("x".to_string()).to_status_code(), 401);
    assert_eq!(MantiError::Provider("x".to_string()).to_status_code(), 502);
    assert_eq!(MantiError::Billing("x".to_string()).to_status_code(), 402);
    assert_eq!(MantiError::Validation("x".to_string()).to_status_code(), 400);
    assert_eq!(MantiError::NotFound("x".to_string()).to_status_code(), 404);
    assert_eq!(MantiError::RateLimitExceeded.to_status_code(), 429);
    assert_eq!(MantiError::Database("x".to_string()).to_status_code(), 500);
    assert_eq!(MantiError::NotFound("user".to_string()).message(), "Not found: user");
    assert_eq!(MantiError::Internal.message(), "Internal server error");
}

#[test]
fn recorded_requests_count_whatever_the_limit() {
    let mut q = QuotaChecker::new();
    for _ in 0..3 {
        q.record_request(77, 1);
    }
    // three requests were recorded, so a limit of three is reached
    let u = user(Some(3), None, Money::zero());
    assert!(matches!(q.check_quota(&u, "gpt-4o", None, balance(10, 0)), QuotaCheckResult::RateLimited { .. }));
    let u = user(Some(4), None, Money::zero());
    assert!(matches!(q.check_quota(&u, "gpt-4o", None, balance(10, 0)), QuotaCheckResult::Allowed));
}

#[test]
fn token_lifetime_is_read_as_std_reads_i64() {
    for t in [
        "+12", "-5", "0", "007", "9223372036854775807", "9223372036854775808", "-9223372036854775808",
        "-9223372036854775809", "", "-", "+", "1a", " 1", "\u{663}", "99999999999999999999999",
    ] {
        let expected = t.parse::<i64>().unwrap_or(24);
        assert_eq!(JwtConfig::from_values(None, Some(t.to_string())).expiration_hours, expected, "{:?}", t);
    }
}

#[test]
fn rate_checked_requests_count_even_when_spending_refuses() {
    let mut q = QuotaChecker::new();
    let over = user(Some(2), Some(Money::from_parts(1, 0).unwrap()), Money::from_parts(5, 0).unwrap());
    assert!(matches!(q.check_quota_at(&over, "m", None, balance(10, 0), 0), QuotaCheckResult::QuotaExceeded { .. }));
    assert!(matches!(q.check_quota_at(&over, "m", None, balance(10, 0), 1), QuotaCheckResult::QuotaExceeded { .. }));
    // both were counted, so the third is refused by the rate limit
    assert!(matches!(q.check_quota_at(&over, "m", None, balance(10, 0), 2), QuotaCheckResult::RateLimited { .. }));
    // a user without a rate limit is never counted
    let free = user(None, None, Money::zero());
    for t in 0..5 {
        assert!(matches!(q.check_quota_at(&free, "m", None, balance(10, 0), t), QuotaCheckResult::Allowed));
    }
}
