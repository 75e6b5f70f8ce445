//! Usage records: what one request consumed and cost.
use vstd::prelude::*;
use crate::clock::{Timestamp, now_timestamp};
use crate::models::money::Money;

verus! {

/// A stored usage record.
#[derive(Debug)]
pub struct Usage {
    pub id: u128,
    pub user_id: u128,
    pub api_key_id: Option<u128>,
    pub model: String,
    pub provider: String,
    pub prompt_tokens: i64,
    pub completion_tokens: i64,
    pub total_tokens: i64,
    /// In USD.
    pub cost: Money,
    pub request_id: String,
    pub created_at: Timestamp,
    /// JSON text.
    pub metadata: Option<String>,
}

/// The data needed to store a usage record.
#[derive(Debug)]
pub struct CreateUsage {
    pub user_id: u128,
    pub api_key_id: Option<u128>,
    pub model: String,
    pub provider: String,
    pub prompt_tokens: i64,
    pub completion_tokens: i64,
    pub total_tokens: i64,
    /// In USD.
    pub cost: Money,
    pub request_id: String,
    /// JSON text.
    pub metadata: Option<String>,
}

/// What a usage listing shows of a record.
#[derive(Debug)]
pub struct UsageInfo {
    pub id: u128,
    pub user_id: u128,
    pub api_key_id: Option<u128>,
    pub model: String,
    pub provider: String,
    pub prompt_tokens: i64,
    pub completion_tokens: i64,
    pub total_tokens: i64,
    pub cost: Money,
    pub request_id: String,
    pub created_at: Timestamp,
}

/// The last `count` hexadecimal digits of `n`, lowercase, most significant
/// first.
pub open spec fn hex_digits(n: nat, count: nat) -> Seq<char>
    decreases count,
{
    if count == 0 {
        seq![]
    } else {
        hex_digits(n / 16, (count - 1) as nat).push("0123456789abcdef"@[(n % 16) as int])
    }
}

/// The hyphenated text of a UUID: its 32 hex digits in groups of 8, 4, 4,
/// 4 and 12.
pub open spec fn uuid_text(id: u128) -> Seq<char> {
    let h = hex_digits(id as nat, 32);
    h.subrange(0, 8) + "-"@ + h.subrange(8, 12) + "-"@ + h.subrange(12, 16) + "-"@ + h.subrange(16, 20) + "-"@
        + h.subrange(20, 32)
}

/// Calls `uuid::Uuid::new_v4()`; the 128-bit value and its hyphenated text.
/// The value is random, so only the relation between the two is stated.
#[verifier::external_body]
fn new_uuid_pair() -> (r: (u128, String))
    ensures
        r.1@ == uuid_text(r.0),
{
    let id = uuid::Uuid::new_v4();
    (id.as_u128(), id.to_string())
}

impl CreateUsage {
    /// A usage record for a request: the total is the sum of the prompt and
    /// completion tokens, and the request gets a fresh random id.
    pub fn new(
        user_id: u128,
        api_key_id: Option<u128>,
        model: String,
        provider: String,
        prompt_tokens: i64,
        completion_tokens: i64,
        cost: Money,
    ) -> (r: Self)
        requires
            i64::MIN <= prompt_tokens + completion_tokens <= i64::MAX,
        ensures
            r.user_id == user_id,
            r.api_key_id == api_key_id,
            r.model@ == model@,
            r.provider@ == provider@,
            r.prompt_tokens == prompt_tokens,
            r.completion_tokens == completion_tokens,
            r.total_tokens == prompt_tokens + completion_tokens,
            r.cost@ == cost@,
            r.metadata is None,
            exists|u: u128| r.request_id@ == #[trigger] uuid_text(u),
    {
        let (u, request_id) = new_uuid_pair();
        assert(request_id@ == uuid_text(u));
        CreateUsage {
            user_id,
            api_key_id,
            model,
            provider,
            prompt_tokens,
            completion_tokens,
            total_tokens: prompt_tokens + completion_tokens,
            cost,
            request_id,
            metadata: None,
        }
    }
}

impl Usage {
    /// A usage record created now, with a fresh id and request id.
    pub fn new(
        user_id: u128,
        api_key_id: Option<u128>,
        model: String,
        provider: String,
        prompt_tokens: i64,
        completion_tokens: i64,
        cost: Money,
    ) -> (r: Self)
        requires
            i64::MIN <= prompt_tokens + completion_tokens <= i64::MAX,
        ensures
            r.user_id == user_id,
            r.api_key_id == api_key_id,
            r.model@ == model@,
            r.provider@ == provider@,
            r.prompt_tokens == prompt_tokens,
            r.completion_tokens == completion_tokens,
            r.total_tokens == prompt_tokens + completion_tokens,
            r.cost@ == cost@,
            r.metadata is None,
            exists|u: u128| r.request_id@ == #[trigger] uuid_text(u),
    {
        let (id, _) = new_uuid_pair();
        let (u, request_id) = new_uuid_pair();
        assert(request_id@ == uuid_text(u));
        Usage {
            id,
            user_id,
            api_key_id,
            model,
            provider,
            prompt_tokens,
            completion_tokens,
            total_tokens: prompt_tokens + completion_tokens,
            cost,
            request_id,
            created_at: now_timestamp(),
            metadata: None,
        }
    }
}

impl UsageInfo {
    /// The listing entry of a record.
    pub fn from_usage(u: Usage) -> (r: UsageInfo)
        ensures
            r.id == u.id,
            r.user_id == u.user_id,
            r.api_key_id == u.api_key_id,
            r.model@ == u.model@,
            r.provider@ == u.provider@,
            r.prompt_tokens == u.prompt_tokens,
            r.completion_tokens == u.completion_tokens,
            r.total_tokens == u.total_tokens,
            r.cost@ == u.cost@,
            r.request_id@ == u.request_id@,
            r.created_at == u.created_at,
    {
        UsageInfo {
            id: u.id,
            user_id: u.user_id,
            api_key_id: u.api_key_id,
            model: u.model,
            provider: u.provider,
            prompt_tokens: u.prompt_tokens,
            completion_tokens: u.completion_tokens,
            total_tokens: u.total_tokens,
            cost: u.cost,
            request_id: u.request_id,
            created_at: u.created_at,
        }
    }
}

} // verus!

verus! {

/// Lifecycle status of a billing period in usage reports.
#[derive(Debug, Clone, Copy, PartialEq, Eq, Structural)]
pub enum BillingStatus {
    Pending,
    Paid,
    Overdue,
    Cancelled,
}

} // verus!

verus! {

/// Usage of one user over a period.
#[derive(Debug, Clone)]
pub struct UsageSummary {
    pub user_id: u128,
    pub period_start: Timestamp,
    pub period_end: Timestamp,
    pub total_requests: i64,
    pub total_tokens: i64,
    /// `f64` bit pattern.
    pub total_cost: u64,
    pub by_model: Vec<ModelUsage>,
}

/// Usage of one model of one provider.
#[derive(Debug, Clone)]
pub struct ModelUsage {
    pub model: String,
    pub provider: String,
    pub requests: i64,
    pub prompt_tokens: i64,
    pub completion_tokens: i64,
    pub total_tokens: i64,
    /// `f64` bit pattern.
    pub cost: u64,
}

} // verus!
