use vstd::prelude::*;
use crate::clock::Timestamp;
use crate::models::money::Money;

verus! {

/// Lifecycle status of a periodic billing record.
#[derive(Debug, Clone, Copy, PartialEq, Eq, Structural)]
pub enum BillingStatus {
    Pending,
    Paid,
    Overdue,
    Cancelled,
}

/// The lowercase wire name of each billing status.
pub open spec fn billing_status_name(s: BillingStatus) -> Seq<char> {
    match s {
        BillingStatus::Pending => "pending"@,
        BillingStatus::Paid => "paid"@,
        BillingStatus::Overdue => "overdue"@,
        BillingStatus::Cancelled => "cancelled"@,
    }
}

impl BillingStatus {
    /// The lowercase name stored in the database and sent to clients.
    pub fn as_str(&self) -> (r: &'static str)
        ensures
            r@ == billing_status_name(*self),
    {
        match self {
            BillingStatus::Pending => "pending",
            BillingStatus::Paid => "paid",
            BillingStatus::Overdue => "overdue",
            BillingStatus::Cancelled => "cancelled",
        }
    }
}

} // verus!

verus! {

/// A user's prepaid balance.
#[derive(Debug)]
pub struct UserBalance {
    pub user_id: u128,
    pub balance: Money,
    pub credit_limit: Money,
    pub lifetime_usage: Money,
    pub updated_at: Timestamp,
}

} // verus!

verus! {

/// A billing record for one period.
#[derive(Debug)]
pub struct Billing {
    pub id: u128,
    pub user_id: u128,
    pub period_start: Timestamp,
    pub period_end: Timestamp,
    pub total_cost: Money,
    pub total_tokens: i64,
    pub total_requests: i64,
    pub status: String,
    /// JSON text of the billed items.
    pub items: Option<String>,
    pub created_at: Timestamp,
    pub paid_at: Option<Timestamp>,
}

/// The data needed to store a billing record.
#[derive(Debug)]
pub struct CreateBilling {
    pub user_id: u128,
    pub period_start: Timestamp,
    pub period_end: Timestamp,
    pub total_cost: Money,
    pub total_tokens: i64,
    pub total_requests: i64,
    pub status: String,
    /// JSON text of the billed items.
    pub items: Option<String>,
}

/// What a balance query shows.
#[derive(Debug)]
pub struct UserBalanceInfo {
    pub user_id: u128,
    pub balance: Money,
    pub credit_limit: Money,
    pub lifetime_usage: Money,
    pub updated_at: Timestamp,
}

/// A request to add to a user's balance.
#[derive(Debug)]
pub struct AddBalanceRequest {
    pub amount: Money,
}

impl UserBalanceInfo {
    /// What a balance query shows of a balance.
    pub fn from_balance(b: UserBalance) -> (r: UserBalanceInfo)
        ensures
            r.user_id == b.user_id,
            r.balance@ == b.balance@,
            r.credit_limit@ == b.credit_limit@,
            r.lifetime_usage@ == b.lifetime_usage@,
            r.updated_at == b.updated_at,
    {
        UserBalanceInfo {
            user_id: b.user_id,
            balance: b.balance,
            credit_limit: b.credit_limit,
            lifetime_usage: b.lifetime_usage,
            updated_at: b.updated_at,
        }
    }
}

} // verus!

verus! {

/// One line of a bill: the usage of one model of one provider.
#[derive(Debug, Clone)]
pub struct BillingItem {
    pub model: String,
    pub provider: String,
    pub requests: i64,
    pub prompt_tokens: i64,
    pub completion_tokens: i64,
    /// `f64` bit pattern.
    pub cost: u64,
}

/// What the API shows of a billing record, with its items read.
#[derive(Debug)]
pub struct BillingInfo {
    pub id: u128,
    pub user_id: u128,
    pub period_start: Timestamp,
    pub period_end: Timestamp,
    pub total_cost: Money,
    pub total_tokens: i64,
    pub total_requests: i64,
    pub status: String,
    pub items: Option<Vec<BillingItem>>,
    pub created_at: Timestamp,
    pub paid_at: Option<Timestamp>,
}

impl BillingInfo {
    /// The record with `items`, what its stored item text reads as (`None`
    /// where there is none or it does not read as a list of items).
    pub fn from_billing(b: Billing, items: Option<Vec<BillingItem>>) -> (r: BillingInfo)
        ensures
            r.id == b.id,
            r.user_id == b.user_id,
            r.period_start == b.period_start,
            r.period_end == b.period_end,
            r.total_cost@ == b.total_cost@,
            r.total_tokens == b.total_tokens,
            r.total_requests == b.total_requests,
            r.status@ == b.status@,
            r.items == items,
            r.created_at == b.created_at,
            r.paid_at == b.paid_at,
    {
        BillingInfo {
            id: b.id,
            user_id: b.user_id,
            period_start: b.period_start,
            period_end: b.period_end,
            total_cost: b.total_cost,
            total_tokens: b.total_tokens,
            total_requests: b.total_requests,
            status: b.status,
            items,
            created_at: b.created_at,
            paid_at: b.paid_at,
        }
    }
}

} // verus!
