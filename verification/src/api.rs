//! The gateway's answers to callers: which requests an LLM endpoint accepts,
//! the error bodies it sends when it refuses one, and small rules of the
//! account endpoints.
use vstd::prelude::*;
use crate::auth::{AuthContext, FORBIDDEN};
use crate::clock::Timestamp;
use crate::error::{MantiError, error_message};
use crate::models::anthropic::{AnthropicErrorDetail, StreamError};
use crate::models::api_key::{ApiKey, key_valid_at};
use crate::models::money::decimal_text;
use crate::models::user::User;
use crate::quota::checker::QuotaCheckResult;
use crate::text::split_once_char;

verus! {

/// An error body in the OpenAI style.
#[derive(Debug, Clone)]
pub struct ApiError {
    pub message: String,
    pub kind: String,
    pub code: String,
    pub retry_after: Option<u64>,
}

/// The error body `e` says `message`, of type `kind`, with `code`.
pub open spec fn api_error_is(e: ApiError, message: Seq<char>, kind: Seq<char>, code: Seq<char>, retry_after: Option<u64>) -> bool {
    &&& e.message@ == message
    &&& e.kind@ == kind
    &&& e.code@ == code
    &&& e.retry_after == retry_after
}

/// The Anthropic error detail `d` is of type `kind` and says `message`.
pub open spec fn detail_is(d: AnthropicErrorDetail, kind: Seq<char>, message: Seq<char>) -> bool {
    d.kind@ == kind && d.message@ == message
}

fn api_error(message: String, kind: &str, code: &str, retry_after: Option<u64>) -> (r: ApiError)
    ensures
        api_error_is(r, message@, kind@, code@, retry_after),
{
    ApiError { message, kind: String::from_str(kind), code: String::from_str(code), retry_after }
}

fn detail(kind: &str, message: String) -> (r: AnthropicErrorDetail)
    ensures
        detail_is(r, kind@, message@),
{
    AnthropicErrorDetail { kind: String::from_str(kind), message }
}

/// The decimal digits of `n`.
pub open spec fn decimal_digits(n: nat) -> Seq<char>
    decreases n,
{
    if n < 10 {
        seq![digit_char(n)]
    } else {
        decimal_digits(n / 10) + seq![digit_char(n % 10)]
    }
}

/// The character of a decimal digit.
pub open spec fn digit_char(d: nat) -> char {
    "0123456789"@[d as int]
}

/// The digits of `m` before those already written, none for zero.
pub open spec fn leading_digits(m: nat) -> Seq<char> {
    if m > 0 {
        decimal_digits(m)
    } else {
        seq![]
    }
}

/// The decimal text of `n`.
pub fn u64_text(n: u64) -> (r: String)
    ensures
        r@ == decimal_digits(n as nat),
{
    proof {
        reveal_strlit("0123456789");
    }
    let digits = "0123456789";
    let d0 = n % 10;
    let mut out = String::from_str(digits.substring_char(d0 as usize, d0 as usize + 1));
    let mut m: u64 = n / 10;
    proof {
        assert(out@ =~= seq![digit_char(d0 as nat)]);
        assert(decimal_digits(n as nat) =~= leading_digits(m as nat) + out@);
    }
    while m > 0
        invariant
            digits@ == "0123456789"@,
            digits@.len() == 10,
            decimal_digits(n as nat) == leading_digits(m as nat) + out@,
        decreases m,
    {
        let d = m % 10;
        let c = digits.substring_char(d as usize, d as usize + 1);
        let mut next = String::from_str(c);
        next.append(out.as_str());
        proof {
            assert(c@ =~= seq![digit_char(d as nat)]);
            assert(decimal_digits(m as nat) =~= leading_digits((m / 10) as nat) + seq![digit_char(d as nat)]);
            assert(leading_digits((m / 10) as nat) + seq![digit_char(d as nat)] + out@
                =~= leading_digits((m / 10) as nat) + next@);
        }
        out = next;
        m = m / 10;
    }
    assert(leading_digits(0) + out@ =~= out@);
    out
}

/// Which caller may use an LLM endpoint: only an API key; a user token or
/// an anonymous request is refused with an authentication error.
pub fn llm_caller(auth: &AuthContext) -> (r: Result<(u128, u128), ApiError>)
    ensures
        match *auth {
            AuthContext::ApiKey { user_id, api_key_id } => r == Ok::<(u128, u128), ApiError>((user_id, api_key_id)),
            AuthContext::User(_) => r matches Err(e) && api_error_is(
                e,
                "JWT authentication is not allowed for LLM endpoints. Please use an API key."@,
                "authentication_error"@,
                "jwt_not_allowed"@,
                None,
            ),
            AuthContext::Anonymous => r matches Err(e) && api_error_is(
                e,
                "API key required. Please provide an API key via Authorization header or x-api-key header."@,
                "authentication_error"@,
                "api_key_required"@,
                None,
            ),
        },
{
    match auth {
        AuthContext::ApiKey { user_id, api_key_id } => Ok((*user_id, *api_key_id)),
        AuthContext::User(_) => Err(api_error(
            "JWT authentication is not allowed for LLM endpoints. Please use an API key.".to_string(),
            "authentication_error",
            "jwt_not_allowed",
            None,
        )),
        AuthContext::Anonymous => Err(api_error(
            "API key required. Please provide an API key via Authorization header or x-api-key header.".to_string(),
            "authentication_error",
            "api_key_required",
            None,
        )),
    }
}

/// The user and key behind an API-key caller, as found in storage; either
/// missing is an invalid key.
pub fn llm_credentials(user: Option<User>, api_key: Option<ApiKey>) -> (r: Result<(User, ApiKey), ApiError>)
    ensures
        match (user, api_key) {
            (Some(u), Some(k)) => r matches Ok((u2, k2)) && u2 == u && k2 == k,
            _ => r matches Err(e) && api_error_is(e, "Invalid API key"@, "authentication_error"@, "invalid_api_key"@, None),
        },
{
    match (user, api_key) {
        (Some(u), Some(k)) => Ok((u, k)),
        _ => Err(api_error("Invalid API key".to_string(), "authentication_error", "invalid_api_key", None)),
    }
}

/// `prefix`, then `rest`.
fn prefixed(prefix: &str, rest: &str) -> (r: String)
    ensures
        r@ == prefix@ + rest@,
{
    let mut s = String::from_str(prefix);
    s.append(rest);
    s
}

/// `prefix`, then `middle`, then `suffix`.
fn framed(prefix: &str, middle: &str, suffix: &str) -> (r: String)
    ensures
        r@ == prefix@ + middle@ + suffix@,
{
    let mut s = String::from_str(prefix);
    s.append(middle);
    s.append(suffix);
    s
}

/// The OpenAI error for a model that is not served.
pub fn model_not_found(model: &str) -> (r: ApiError)
    ensures
        api_error_is(r, "Model '"@ + model@ + "' not found"@, "invalid_request_error"@, "model_not_found"@, None),
{
    api_error(framed("Model '", model, "' not found"), "invalid_request_error", "model_not_found", None)
}

/// The Anthropic error for a model that is not served.
pub fn anthropic_model_not_found(model: &str) -> (r: AnthropicErrorDetail)
    ensures
        detail_is(r, "not_found_error"@, "Model '"@ + model@ + "' not found"@),
{
    detail("not_found_error", framed("Model '", model, "' not found"))
}

/// The message for a used-up monthly quota.
pub open spec fn quota_message(used: Seq<char>, limit: Seq<char>) -> Seq<char> {
    "Monthly quota exceeded (used: "@ + used + ", limit: "@ + limit + ")"@
}

/// The OpenAI error answered for a refused quota check; none when allowed.
pub fn quota_refusal(result: &QuotaCheckResult) -> (r: Option<ApiError>)
    ensures
        match *result {
            QuotaCheckResult::Allowed => r is None,
            QuotaCheckResult::RateLimited { retry_after_secs } => r matches Some(e) && api_error_is(
                e,
                "Rate limit exceeded"@,
                "rate_limit_error"@,
                "rate_limit_exceeded"@,
                Some(retry_after_secs),
            ),
            QuotaCheckResult::QuotaExceeded { limit, used } => r matches Some(e) && api_error_is(
                e,
                quota_message(decimal_text(used@.mantissa, used@.scale), decimal_text(limit@.mantissa, limit@.scale)),
                "quota_exceeded_error"@,
                "quota_exceeded"@,
                None,
            ),
            QuotaCheckResult::ModelNotAllowed { model } => r matches Some(e) && api_error_is(
                e,
                "Model '"@ + model@ + "' is not allowed for this API key"@,
                "permission_error"@,
                "model_not_allowed"@,
                None,
            ),
            QuotaCheckResult::InsufficientBalance { .. } => r matches Some(e) && api_error_is(
                e,
                "Insufficient balance"@,
                "billing_error"@,
                "insufficient_balance"@,
                None,
            ),
        },
{
    match result {
        QuotaCheckResult::Allowed => None,
        QuotaCheckResult::RateLimited { retry_after_secs } => Some(
            api_error("Rate limit exceeded".to_string(), "rate_limit_error", "rate_limit_exceeded", Some(*retry_after_secs)),
        ),
        QuotaCheckResult::QuotaExceeded { limit, used } => {
            let u = used.to_text();
            let l = limit.to_text();
            let mut m = framed("Monthly quota exceeded (used: ", u.as_str(), ", limit: ");
            m.append(l.as_str());
            m.append(")");
            Some(api_error(m, "quota_exceeded_error", "quota_exceeded", None))
        },
        QuotaCheckResult::ModelNotAllowed { model } => Some(api_error(
            framed("Model '", model.as_str(), "' is not allowed for this API key"),
            "permission_error",
            "model_not_allowed",
            None,
        )),
        QuotaCheckResult::InsufficientBalance { .. } => Some(
            api_error("Insufficient balance".to_string(), "billing_error", "insufficient_balance", None),
        ),
    }
}

/// The Anthropic error answered for a refused quota check; none when allowed.
pub fn anthropic_quota_refusal(result: &QuotaCheckResult) -> (r: Option<AnthropicErrorDetail>)
    ensures
        match *result {
            QuotaCheckResult::Allowed => r is None,
            QuotaCheckResult::RateLimited { retry_after_secs } => r matches Some(d) && detail_is(
                d,
                "rate_limit_error"@,
                "Rate limit exceeded. Retry after "@ + decimal_digits(retry_after_secs as nat) + " seconds."@,
            ),
            QuotaCheckResult::QuotaExceeded { limit, used } => r matches Some(d) && detail_is(
                d,
                "quota_exceeded"@,
                quota_message(decimal_text(used@.mantissa, used@.scale), decimal_text(limit@.mantissa, limit@.scale)),
            ),
            QuotaCheckResult::ModelNotAllowed { model } => r matches Some(d) && detail_is(
                d,
                "permission_error"@,
                "Model '"@ + model@ + "' is not allowed for this API key"@,
            ),
            QuotaCheckResult::InsufficientBalance { .. } => r matches Some(d) && detail_is(
                d,
                "billing_error"@,
                "Insufficient balance"@,
            ),
        },
{
    match result {
        QuotaCheckResult::Allowed => None,
        QuotaCheckResult::RateLimited { retry_after_secs } => {
            let secs = u64_text(*retry_after_secs);
            Some(detail("rate_limit_error", framed("Rate limit exceeded. Retry after ", secs.as_str(), " seconds.")))
        },
        QuotaCheckResult::QuotaExceeded { limit, used } => {
            let u = used.to_text();
            let l = limit.to_text();
            let mut m = framed("Monthly quota exceeded (used: ", u.as_str(), ", limit: ");
            m.append(l.as_str());
            m.append(")");
            Some(detail("quota_exceeded", m))
        },
        QuotaCheckResult::ModelNotAllowed { model } => Some(
            detail("permission_error", framed("Model '", model.as_str(), "' is not allowed for this API key")),
        ),
        QuotaCheckResult::InsufficientBalance { .. } => Some(detail("billing_error", "Insufficient balance".to_string())),
    }
}

/// The OpenAI error for a failed provider call.
pub fn provider_failure(e: &MantiError) -> (r: ApiError)
    ensures
        api_error_is(r, "Provider error: "@ + error_message(*e), "provider_error"@, "provider_error"@, None),
{
    let m = e.message();
    api_error(prefixed("Provider error: ", m.as_str()), "provider_error", "provider_error", None)
}

/// The Anthropic error for a failed provider call.
pub fn anthropic_provider_failure(e: &MantiError) -> (r: AnthropicErrorDetail)
    ensures
        detail_is(r, "api_error"@, "Provider error: "@ + error_message(*e)),
{
    let m = e.message();
    detail("api_error", prefixed("Provider error: ", m.as_str()))
}

/// The OpenAI error event sent when a stream fails.
pub fn stream_failure(e: &MantiError) -> (r: ApiError)
    ensures
        api_error_is(r, "Stream error: "@ + error_message(*e), "stream_error"@, "stream_error"@, None),
{
    let m = e.message();
    api_error(prefixed("Stream error: ", m.as_str()), "stream_error", "stream_error", None)
}

/// The Anthropic error event sent when a stream fails.
pub fn anthropic_stream_failure(e: &MantiError) -> (r: StreamError)
    ensures
        r.kind@ == "stream_error"@,
        r.message@ == "Stream error: "@ + error_message(*e),
{
    let m = e.message();
    StreamError { kind: "stream_error".to_string(), message: prefixed("Stream error: ", m.as_str()) }
}

/// The model a streamed request is billed under: the one the stream
/// reported, or the requested one when the stream reported none.
pub fn usage_model_name(reported: &String, requested: &String) -> (r: String)
    ensures
        r@ == if reported@.len() == 0 {
            requested@
        } else {
            reported@
        },
{
    if reported.as_str().is_empty() {
        requested.clone()
    } else {
        reported.clone()
    }
}

/// Whether an email address is acceptable at registration: it contains `@`.
pub fn is_valid_email(email: &str) -> (r: bool)
    ensures
        r == email@.contains('@'),
{
    proof {
        crate::text::lemma_split_once_found(email@, '@');
    }
    split_once_char(email, '@').is_some()
}

/// Whether `user_id` may see a billing record of `owner`; 403 otherwise.
pub fn billing_access(owner: u128, user_id: u128) -> (r: Result<(), u16>)
    ensures
        r == if owner == user_id {
            Ok::<(), u16>(())
        } else {
            Err::<(), u16>(FORBIDDEN)
        },
{
    if owner == user_id {
        Ok(())
    } else {
        Err(FORBIDDEN)
    }
}

/// A stored key as found by its value or id, if it is usable at `now`: a
/// key that is inactive or expired is treated as absent.
pub fn usable_api_key(found: Option<ApiKey>, now: Timestamp) -> (r: Option<ApiKey>)
    ensures
        match found {
            Some(k) => if key_valid_at(k, now) {
                r == Some(k)
            } else {
                r is None
            },
            None => r is None,
        },
{
    match found {
        Some(k) => {
            if k.is_valid_at(now) {
                Some(k)
            } else {
                None
            }
        },
        None => None,
    }
}

/// The number of keys among `keys` that are active and usable at `now`.
pub open spec fn active_key_count(keys: Seq<ApiKey>, now: Timestamp) -> nat
    decreases keys.len(),
{
    if keys.len() == 0 {
        0
    } else {
        active_key_count(keys.drop_last(), now) + if keys.last().is_active && key_valid_at(keys.last(), now) {
            1nat
        } else {
            0nat
        }
    }
}

/// Counts the keys that are active and usable at `now`.
pub fn count_active_keys(keys: &Vec<ApiKey>, now: Timestamp) -> (r: usize)
    ensures
        r == active_key_count(keys@, now),
{
    let mut n: usize = 0;
    let mut i: usize = 0;
    while i < keys.len()
        invariant
            i <= keys.len(),
            n == active_key_count(keys@.take(i as int), now),
            n <= i,
        decreases keys.len() - i,
    {
        assert(keys@.take(i + 1).drop_last() =~= keys@.take(i as int));
        if keys[i].is_active && keys[i].is_valid_at(now) {
            n = n + 1;
        }
        i = i + 1;
    }
    assert(keys@.take(keys@.len() as int) =~= keys@);
    n
}

/// Seconds in a day.
pub const SECS_PER_DAY: i64 = 86400;

/// How many days a usage listing covers when no start is given.
pub const DEFAULT_USAGE_DAYS: i64 = 30;

/// The period a usage query covers: up to `end`, or up to `now` when no end
/// is given; from `start`, or from thirty days before the end when no start
/// is given.
pub fn usage_window(start: Option<Timestamp>, end: Option<Timestamp>, now: Timestamp) -> (r: (Timestamp, Timestamp))
    requires
        (match end { Some(e) => e.secs, None => now.secs }) >= i64::MIN + DEFAULT_USAGE_DAYS * SECS_PER_DAY,
    ensures
        r.1 == (match end { Some(e) => e, None => now }),
        r.0 == (match start {
            Some(s) => s,
            None => Timestamp { secs: (r.1.secs - DEFAULT_USAGE_DAYS * SECS_PER_DAY) as i64, nanos: r.1.nanos },
        }),
{
    let last = match end {
        Some(e) => e,
        None => now,
    };
    let first = match start {
        Some(s) => s,
        None => Timestamp { secs: last.secs - DEFAULT_USAGE_DAYS * SECS_PER_DAY, nanos: last.nanos },
    };
    (first, last)
}

/// When a key created at `now` to last `expires_in_days` days expires;
/// `None` for a key that does not expire.
pub fn api_key_expiry(expires_in_days: Option<i64>, now: Timestamp) -> (r: Option<Timestamp>)
    requires
        expires_in_days matches Some(d) ==> i64::MIN <= d * SECS_PER_DAY <= i64::MAX,
        expires_in_days matches Some(d) ==> i64::MIN <= now.secs + d * SECS_PER_DAY <= i64::MAX,
    ensures
        match expires_in_days {
            Some(d) => r == Some(Timestamp { secs: (now.secs + d * SECS_PER_DAY) as i64, nanos: now.nanos }),
            None => r is None,
        },
{
    match expires_in_days {
        Some(d) => {
            let span = d * SECS_PER_DAY;
            Some(Timestamp { secs: now.secs + span, nanos: now.nanos })
        },
        None => None,
    }
}

/// Whether the caller may read the usage statistics of `user_id`: a user
/// may read their own, an administrator anyone's; 403 otherwise.
pub fn usage_stats_access(auth: &AuthContext, user_id: u128) -> (r: Result<(), u16>)
    ensures
        r is Ok <==> (crate::auth::context_user(*auth) == Some(user_id) || (auth matches AuthContext::User(c) && c.is_admin)),
        r matches Err(code) ==> code == FORBIDDEN,
{
    match auth.user_id() {
        Some(u) => {
            if u == user_id {
                return Ok(());
            }
        },
        None => {},
    }
    match auth.require_admin() {
        Ok(_) => Ok(()),
        Err(code) => Err(code),
    }
}

/// Where the handling of one LLM request stands.
#[derive(Debug, Clone, Copy, PartialEq, Eq, Structural)]
pub enum LlmStage {
    /// Waiting for the caller's credentials to be looked up.
    Credentials,
    /// Waiting for the model to be looked up.
    Model,
    /// Waiting for the quota verdict.
    Quota,
    /// Waiting for the provider's answer.
    Provider,
    /// Answered.
    Finished,
}

/// What the server learned from the last step of outside work.
#[derive(Debug, Clone, Copy, PartialEq, Eq, Structural)]
pub enum LlmEvent {
    /// The caller's user and key were found (or not).
    Credentials(bool),
    /// The model is served (or not).
    Model(bool),
    /// The quota checks allowed the request (or not).
    Quota(bool),
    /// The provider answered (or failed).
    Provider(bool),
}

/// What the server does next.
#[derive(Debug, Clone, Copy, PartialEq, Eq, Structural)]
pub enum LlmAction {
    FindModel,
    CheckQuota,
    CallProvider,
    /// Record the usage, then send the provider's answer.
    RecordUsage,
    /// Send the refusal for the failed check.
    Refuse,
    /// Send the provider-error body.
    ReportFailure,
    /// The event does not belong to this stage: nothing is done.
    Ignore,
}

/// One step of handling an LLM request: each check that passes leads to the
/// next piece of outside work, the first that fails ends with a refusal,
/// and only a successful provider answer is billed.
pub open spec fn llm_step_spec(stage: LlmStage, event: LlmEvent) -> (LlmStage, LlmAction) {
    match (stage, event) {
        (LlmStage::Credentials, LlmEvent::Credentials(ok)) => if ok {
            (LlmStage::Model, LlmAction::FindModel)
        } else {
            (LlmStage::Finished, LlmAction::Refuse)
        },
        (LlmStage::Model, LlmEvent::Model(ok)) => if ok {
            (LlmStage::Quota, LlmAction::CheckQuota)
        } else {
            (LlmStage::Finished, LlmAction::Refuse)
        },
        (LlmStage::Quota, LlmEvent::Quota(ok)) => if ok {
            (LlmStage::Provider, LlmAction::CallProvider)
        } else {
            (LlmStage::Finished, LlmAction::Refuse)
        },
        (LlmStage::Provider, LlmEvent::Provider(ok)) => if ok {
            (LlmStage::Finished, LlmAction::RecordUsage)
        } else {
            (LlmStage::Finished, LlmAction::ReportFailure)
        },
        _ => (stage, LlmAction::Ignore),
    }
}

/// The next stage and action of an LLM request.
pub fn llm_step(stage: LlmStage, event: LlmEvent) -> (r: (LlmStage, LlmAction))
    ensures
        r == llm_step_spec(stage, event),
{
    match (stage, event) {
        (LlmStage::Credentials, LlmEvent::Credentials(ok)) => if ok {
            (LlmStage::Model, LlmAction::FindModel)
        } else {
            (LlmStage::Finished, LlmAction::Refuse)
        },
        (LlmStage::Model, LlmEvent::Model(ok)) => if ok {
            (LlmStage::Quota, LlmAction::CheckQuota)
        } else {
            (LlmStage::Finished, LlmAction::Refuse)
        },
        (LlmStage::Quota, LlmEvent::Quota(ok)) => if ok {
            (LlmStage::Provider, LlmAction::CallProvider)
        } else {
            (LlmStage::Finished, LlmAction::Refuse)
        },
        (LlmStage::Provider, LlmEvent::Provider(ok)) => if ok {
            (LlmStage::Finished, LlmAction::RecordUsage)
        } else {
            (LlmStage::Finished, LlmAction::ReportFailure)
        },
        _ => (stage, LlmAction::Ignore),
    }
}

/// The stage reached and the actions taken when `events` arrive in order.
pub open spec fn llm_run(stage: LlmStage, events: Seq<LlmEvent>) -> (LlmStage, Seq<LlmAction>)
    decreases events.len(),
{
    if events.len() == 0 {
        (stage, seq![])
    } else {
        let (s1, a1) = llm_run(stage, events.drop_last());
        let (s2, a) = llm_step_spec(s1, events.last());
        (s2, a1.push(a))
    }
}

/// The number of actions other than `Ignore` in `actions`.
pub open spec fn effective(actions: Seq<LlmAction>) -> nat
    decreases actions.len(),
{
    if actions.len() == 0 {
        0
    } else {
        effective(actions.drop_last()) + if actions.last() == LlmAction::Ignore { 0nat } else { 1nat }
    }
}

/// The stage after `n` effective actions along the path where every check
/// passes.
pub open spec fn stage_after(n: nat) -> LlmStage {
    if n == 0 {
        LlmStage::Credentials
    } else if n == 1 {
        LlmStage::Model
    } else if n == 2 {
        LlmStage::Quota
    } else {
        LlmStage::Provider
    }
}

proof fn lemma_llm_run(events: Seq<LlmEvent>)
    ensures
        ({
            let (s, acts) = llm_run(LlmStage::Credentials, events);
            &&& acts.len() == events.len()
            &&& forall|i: int| 0 <= i < acts.len() ==> (#[trigger] acts[i] == LlmAction::CallProvider ==> effective(acts.take(i)) == 2 && events[i] == LlmEvent::Quota(true))
            &&& forall|i: int| 0 <= i < acts.len() ==> (#[trigger] acts[i] == LlmAction::RecordUsage ==> effective(acts.take(i)) == 3 && events[i] == LlmEvent::Provider(true))
            &&& (s == LlmStage::Finished || (effective(acts) <= 3 && s == stage_after(effective(acts))))
            &&& forall|i: int| 0 <= i < acts.len() && #[trigger] acts[i] != LlmAction::Ignore ==> (effective(acts.take(i)) <= 3
                && llm_run(LlmStage::Credentials, events.take(i)).0 == stage_after(effective(acts.take(i))))
        }),
    decreases events.len(),
{
    if events.len() > 0 {
        let init = events.drop_last();
        lemma_llm_run(init);
        let (s1, a1) = llm_run(LlmStage::Credentials, init);
        let (s2, a) = llm_step_spec(s1, events.last());
        let acts = a1.push(a);
        assert(acts.take(a1.len() as int) =~= a1);
        assert(acts.drop_last() =~= a1);
        assert(events.take(init.len() as int) =~= init);
        assert forall|i: int| 0 <= i < a1.len() implies acts.take(i) == a1.take(i) && events.take(i) == init.take(i) by {
            assert(acts.take(i) =~= a1.take(i));
            assert(events.take(i) =~= init.take(i));
        }
    }
}

/// The order of an LLM request: the provider is called only once the
/// credentials, the model and the quota have all passed, in that order,
/// and usage is recorded only for a provider answer that came after that
/// call. A refused request is never sent to a provider and never billed.
pub proof fn law_llm_request_order(events: Seq<LlmEvent>)
    ensures
        ({
            let acts = llm_run(LlmStage::Credentials, events).1;
            &&& forall|i: int| 0 <= i < acts.len() && #[trigger] acts[i] == LlmAction::CallProvider ==> (effective(acts.take(i)) == 2
                && events[i] == LlmEvent::Quota(true))
            &&& forall|i: int| 0 <= i < acts.len() && #[trigger] acts[i] == LlmAction::RecordUsage ==> (effective(acts.take(i)) == 3
                && events[i] == LlmEvent::Provider(true))
            &&& forall|i: int, j: int| 0 <= i < j < acts.len() && #[trigger] acts[i] == LlmAction::Refuse ==> #[trigger] acts[j]
                == LlmAction::Ignore
        }),
{
    lemma_llm_run(events);
    let acts = llm_run(LlmStage::Credentials, events).1;
    assert forall|i: int, j: int| 0 <= i < j < acts.len() && #[trigger] acts[i] == LlmAction::Refuse implies #[trigger] acts[j]
        == LlmAction::Ignore by {
        lemma_refuse_finishes(events, i, j);
    }
}

proof fn lemma_refuse_finishes(events: Seq<LlmEvent>, i: int, j: int)
    requires
        0 <= i < j < events.len(),
        llm_run(LlmStage::Credentials, events).1[i] == LlmAction::Refuse,
    ensures
        llm_run(LlmStage::Credentials, events).1[j] == LlmAction::Ignore,
    decreases events.len(),
{
    let init = events.drop_last();
    lemma_run_len(events);
    lemma_run_len(init);
    let (s1, a1) = llm_run(LlmStage::Credentials, init);
    assert(llm_run(LlmStage::Credentials, events).1 == a1.push(llm_step_spec(s1, events.last()).1));
    if j < events.len() - 1 {
        assert(a1[i] == LlmAction::Refuse);
        lemma_refuse_finishes(init, i, j);
    } else {
        assert(a1[i] == LlmAction::Refuse);
        lemma_finished_after_refuse(init, i);
    }
}

proof fn lemma_run_len(events: Seq<LlmEvent>)
    ensures
        llm_run(LlmStage::Credentials, events).1.len() == events.len(),
    decreases events.len(),
{
    if events.len() > 0 {
        lemma_run_len(events.drop_last());
    }
}

proof fn lemma_finished_after_refuse(events: Seq<LlmEvent>, i: int)
    requires
        0 <= i < events.len(),
        llm_run(LlmStage::Credentials, events).1[i] == LlmAction::Refuse,
    ensures
        llm_run(LlmStage::Credentials, events).0 == LlmStage::Finished,
    decreases events.len(),
{
    let init = events.drop_last();
    lemma_run_len(init);
    let (s1, a1) = llm_run(LlmStage::Credentials, init);
    if i < events.len() - 1 {
        assert(llm_run(LlmStage::Credentials, events).1 == a1.push(llm_step_spec(s1, events.last()).1));
        assert(a1[i] == LlmAction::Refuse);
        lemma_finished_after_refuse(init, i);
    }
}

} // verus!
