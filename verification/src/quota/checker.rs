//! The checks a request passes before it reaches a provider: the key's model
//! allowlist, the user's rate limit, the monthly quota and the balance.
use vstd::prelude::*;
use crate::error::MantiError;
use crate::models::api_key::{ApiKey, model_allowed_by};
use crate::models::billing::UserBalance;
use crate::models::money::{Money, MoneyView, money_le};
use crate::models::user::User;
use crate::quota::rate_limiter::{
    RateLimiter, WINDOW_NANOS, record_outcome, recorded, cleaned, in_window, limit_reached,
    retry_after_secs, user_timestamps, law_record_counts, law_record_request_counts,
};

verus! {

/// The verdict on a request.
#[derive(Debug)]
pub enum QuotaCheckResult {
    /// The request may proceed.
    Allowed,
    /// The rate limit is reached; retry after this many seconds.
    RateLimited { retry_after_secs: u64 },
    /// The monthly quota is used up.
    QuotaExceeded { limit: Money, used: Money },
    /// The API key does not permit this model.
    ModelNotAllowed { model: String },
    /// The prepaid balance does not cover the request.
    InsufficientBalance { balance: Money, required: Money },
}

/// The amount zero.
pub open spec fn zero_money() -> MoneyView {
    MoneyView { mantissa: 0, scale: 0 }
}

/// The key, if any, does not permit `model`.
pub open spec fn key_refuses(api_key: Option<&ApiKey>, model: Seq<char>) -> bool {
    match api_key {
        Some(k) => !model_allowed_by(k.allowed_models.deep_view(), model),
        None => false,
    }
}

/// What the rate limiter answers for `user_id` at `now` given the recorded
/// windows: `Err(retry_after_secs)` when the limit is reached.
pub open spec fn rate_verdict(
    windows: Map<u128, Seq<u64>>,
    window: u64,
    user_id: u128,
    limit_rpm: i32,
    now: u64,
) -> Result<(), u64> {
    let w = in_window(user_timestamps(windows, user_id), window, now);
    if limit_reached(w.len(), limit_rpm) {
        Err(retry_after_secs(w, window, now))
    } else {
        Ok(())
    }
}

/// The verdict of the quota and balance checks, which follow the rate limit.
pub open spec fn spending_verdict(
    user: User,
    balance: Result<Option<UserBalance>, MantiError>,
    r: QuotaCheckResult,
) -> bool {
    match user.monthly_quota {
        Some(q) if money_le(q@, user.current_month_usage@) => {
            r matches QuotaCheckResult::QuotaExceeded { limit, used } && limit@ == q@
                && used@ == user.current_month_usage@
        },
        _ => match balance {
            Ok(Some(b)) => if money_le(b.balance@, zero_money()) && money_le(b.credit_limit@, zero_money()) {
                r matches QuotaCheckResult::InsufficientBalance { balance, required } && balance@
                    == b.balance@ && required@ == zero_money()
            } else {
                r is Allowed
            },
            _ => r matches QuotaCheckResult::InsufficientBalance { balance, required } && balance@
                == zero_money() && required@ == zero_money(),
        },
    }
}

/// The full verdict on a request of `user` for `model` at `now`, and what
/// it does to the rate limiter's windows (`pre` before, `post` after): a
/// request refused by the key's allowlist is not counted; otherwise, when the
/// user has a rate limit, the request is checked and recorded against it.
pub open spec fn quota_outcome(
    pre: Map<u128, Seq<u64>>,
    post: Map<u128, Seq<u64>>,
    window: u64,
    user: User,
    model: Seq<char>,
    api_key: Option<&ApiKey>,
    balance: Result<Option<UserBalance>, MantiError>,
    now: u64,
    r: QuotaCheckResult,
) -> bool {
    if key_refuses(api_key, model) {
        &&& post == pre
        &&& r matches QuotaCheckResult::ModelNotAllowed { model: m } && m@ == model
    } else {
        match user.rate_limit_rpm {
            Some(limit) => {
                let v = rate_verdict(pre, window, user.id, limit, now);
                &&& record_outcome(pre, post, window, user.id, limit, now, v)
                &&& match v {
                    Err(secs) => r == QuotaCheckResult::RateLimited { retry_after_secs: secs },
                    Ok(_) => spending_verdict(user, balance, r),
                }
            },
            None => {
                &&& post == pre
                &&& spending_verdict(user, balance, r)
            },
        }
    }
}

/// Validates rate limits, quotas and balances before requests.
pub struct QuotaChecker {
    rate_limiter: RateLimiter,
}

impl Default for QuotaChecker {
    fn default() -> (r: Self)
        ensures
            r.wf(),
            r.windows() == Map::<u128, Seq<u64>>::empty(),
            r.window_size() == WINDOW_NANOS,
    {
        QuotaChecker::new()
    }
}

impl QuotaChecker {
    /// The limiter's state is consistent and its window is one minute long.
    pub closed spec fn wf(&self) -> bool {
        self.rate_limiter.wf()
    }

    /// A valid checker counts over a one-minute window.
    pub proof fn lemma_wf_window(&self)
        requires
            self.wf(),
        ensures
            self.window_size() == WINDOW_NANOS,
    {
        self.rate_limiter.lemma_wf_window();
    }

    /// The recorded request times of each user.
    pub closed spec fn windows(&self) -> Map<u128, Seq<u64>> {
        self.rate_limiter.windows()
    }

    /// The rate-limit window in nanoseconds.
    pub closed spec fn window_size(&self) -> u64 {
        self.rate_limiter.window_size()
    }

    /// A checker with no recorded requests.
    pub fn new() -> (r: Self)
        ensures
            r.wf(),
            r.windows() == Map::<u128, Seq<u64>>::empty(),
            r.window_size() == WINDOW_NANOS,
    {
        QuotaChecker { rate_limiter: RateLimiter::new() }
    }

    /// The checks on a request of `user` for `model` at time `now` of the
    /// limiter's clock, in order: the key's model allowlist, the user's rate
    /// limit (which records the request when it passes), the monthly quota,
    /// and the balance, given as read from storage (a missing record or a
    /// read error refuses the request).
    pub fn check_quota_at(
        &mut self,
        user: &User,
        model: &str,
        api_key: Option<&ApiKey>,
        balance: Result<Option<UserBalance>, MantiError>,
        now: u64,
    ) -> (r: QuotaCheckResult)
        requires
            old(self).wf(),
        ensures
            final(self).wf(),
            final(self).window_size() == old(self).window_size(),
            quota_outcome(
                old(self).windows(),
                final(self).windows(),
                old(self).window_size(),
                *user,
                model@,
                api_key,
                balance,
                now,
                r,
            ),
    {
        if let Some(key) = api_key {
            if !key.is_model_allowed(model) {
                return QuotaCheckResult::ModelNotAllowed { model: String::from_str(model) };
            }
        }
        if let Some(limit_rpm) = user.rate_limit_rpm {
            let rr = self.rate_limiter.check_and_record_at(user.id, limit_rpm, now);
            if let Err(retry_after) = rr {
                return QuotaCheckResult::RateLimited { retry_after_secs: retry_after };
            }
        }
        self.spending_check(user, balance)
    }

    fn spending_check(&self, user: &User, balance: Result<Option<UserBalance>, MantiError>) -> (r: QuotaCheckResult)
        ensures
            spending_verdict(*user, balance, r),
    {
        if let Some(monthly_quota) = &user.monthly_quota {
            if monthly_quota.le(&user.current_month_usage) {
                return QuotaCheckResult::QuotaExceeded {
                    limit: monthly_quota.clone(),
                    used: user.current_month_usage.clone(),
                };
            }
        }
        match balance {
            Ok(Some(b)) => {
                let zero = Money::zero();
                if b.balance.le(&zero) && b.credit_limit.le(&zero) {
                    QuotaCheckResult::InsufficientBalance { balance: b.balance, required: Money::zero() }
                } else {
                    QuotaCheckResult::Allowed
                }
            },
            _ => QuotaCheckResult::InsufficientBalance { balance: Money::zero(), required: Money::zero() },
        }
    }

    /// The checks on a request at the current time of the limiter's clock.
    pub fn check_quota(
        &mut self,
        user: &User,
        model: &str,
        api_key: Option<&ApiKey>,
        balance: Result<Option<UserBalance>, MantiError>,
    ) -> (r: QuotaCheckResult)
        requires
            old(self).wf(),
        ensures
            final(self).wf(),
            final(self).window_size() == old(self).window_size(),
            exists|now: u64|
                #[trigger] quota_outcome(
                    old(self).windows(),
                    final(self).windows(),
                    old(self).window_size(),
                    *user,
                    model@,
                    api_key,
                    balance,
                    now,
                    r,
                ),
    {
        let now = self.rate_limiter.now_nanos();
        self.check_quota_at(user, model, api_key, balance, now)
    }

    /// Records a request of `user_id` for rate limiting, for use when the
    /// check was made separately: the request is recorded at the current
    /// time whatever the limit allows, after expired times are dropped.
    pub fn record_request(&mut self, user_id: u128, _limit_rpm: i32)
        requires
            old(self).wf(),
        ensures
            final(self).wf(),
            final(self).window_size() == old(self).window_size(),
            exists|now: u64|
                final(self).windows() == #[trigger] recorded(old(self).windows(), old(self).window_size(), user_id, now),
    {
        let now = self.rate_limiter.now_nanos();
        self.rate_limiter.record_at(user_id, now);
        assert(self.windows() == recorded(old(self).windows(), old(self).window_size(), user_id, now));
    }

    /// Drops expired request times and forgets idle users.
    pub fn cleanup(&mut self)
        requires
            old(self).wf(),
        ensures
            final(self).wf(),
            final(self).window_size() == old(self).window_size(),
            exists|now: u64| final(self).windows() == #[trigger] cleaned(old(self).windows(), old(self).window_size(), now),
    {
        let now = self.rate_limiter.now_nanos();
        self.rate_limiter.cleanup_at(now);
        assert(self.windows() == cleaned(old(self).windows(), old(self).window_size(), now));
    }

    /// The underlying rate limiter.
    pub fn rate_limiter(&self) -> (r: &RateLimiter)
        ensures
            r.wf() == self.wf(),
            r.windows() == self.windows(),
            r.window_size() == self.window_size(),
    {
        &self.rate_limiter
    }
}

/// A request for a model the key does not permit is refused, and it is not
/// counted against the user's rate limit.
pub proof fn law_disallowed_model_not_counted(
    pre: Map<u128, Seq<u64>>,
    post: Map<u128, Seq<u64>>,
    window: u64,
    user: User,
    model: Seq<char>,
    api_key: Option<&ApiKey>,
    balance: Result<Option<UserBalance>, MantiError>,
    now: u64,
    r: QuotaCheckResult,
)
    requires
        quota_outcome(pre, post, window, user, model, api_key, balance, now, r),
        key_refuses(api_key, model),
    ensures
        post == pre,
        r is ModelNotAllowed,
{
}

/// An allowed request of a user with a rate limit has been recorded in that
/// user's window at `now`, on top of the timestamps still inside the window.
pub proof fn law_allowed_request_recorded(
    pre: Map<u128, Seq<u64>>,
    post: Map<u128, Seq<u64>>,
    window: u64,
    user: User,
    model: Seq<char>,
    api_key: Option<&ApiKey>,
    balance: Result<Option<UserBalance>, MantiError>,
    now: u64,
    r: QuotaCheckResult,
)
    requires
        quota_outcome(pre, post, window, user, model, api_key, balance, now, r),
        user.rate_limit_rpm is Some,
        r is Allowed,
    ensures
        post == pre.insert(user.id, in_window(user_timestamps(pre, user.id), window, now).push(now)),
        !limit_reached(in_window(user_timestamps(pre, user.id), window, now).len(), user.rate_limit_rpm->0),
{
}

/// On a valid checker, where `n` requests of the user are inside the
/// one-minute window: the checks count the request, leaving `n + 1`, exactly
/// when the key permits the model, the user has a rate limit and `n` is under
/// it, whatever the quota and balance checks then answer; otherwise the
/// window still holds `n`. Other users are untouched.
pub proof fn law_quota_counts(
    pre: QuotaChecker,
    post: QuotaChecker,
    user: User,
    model: Seq<char>,
    api_key: Option<&ApiKey>,
    balance: Result<Option<UserBalance>, MantiError>,
    now: u64,
    r: QuotaCheckResult,
)
    requires
        pre.wf(),
        quota_outcome(pre.windows(), post.windows(), pre.window_size(), user, model, api_key, balance, now, r),
    ensures
        ({
            let n = in_window(user_timestamps(pre.windows(), user.id), WINDOW_NANOS, now).len();
            let after = in_window(user_timestamps(post.windows(), user.id), WINDOW_NANOS, now).len();
            let counted = !key_refuses(api_key, model) && (user.rate_limit_rpm matches Some(l)
                && !limit_reached(n, l));
            after == if counted { n + 1 } else { n }
        }),
        forall|v: u128| v != user.id ==> #[trigger] user_timestamps(post.windows(), v) == user_timestamps(pre.windows(), v),
{
    pre.lemma_wf_window();
    if !key_refuses(api_key, model) {
        if let Some(limit) = user.rate_limit_rpm {
            let v = rate_verdict(pre.windows(), pre.window_size(), user.id, limit, now);
            law_record_counts(pre.rate_limiter, post.rate_limiter, user.id, limit, now, v);
        } else {
            assert(post.windows() == pre.windows());
        }
    }
}

/// Recording a request on a valid checker, where `n` requests of the user
/// are inside the one-minute window at the time it was recorded: the window
/// then holds `n + 1`. Other users are untouched.
pub proof fn law_recorded_request_counts(pre: QuotaChecker, post: QuotaChecker, user_id: u128, now: u64)
    requires
        pre.wf(),
        post.windows() == recorded(pre.windows(), pre.window_size(), user_id, now),
    ensures
        in_window(user_timestamps(post.windows(), user_id), WINDOW_NANOS, now).len()
            == in_window(user_timestamps(pre.windows(), user_id), WINDOW_NANOS, now).len() + 1,
        forall|v: u128| v != user_id ==> #[trigger] user_timestamps(post.windows(), v) == user_timestamps(pre.windows(), v),
{
    law_record_request_counts(pre.rate_limiter, post.rate_limiter, user_id, now);
}

} // verus!
