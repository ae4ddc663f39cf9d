//! Subscription data storage and eligibility checks on stored billing data.
//!
//! The library receives subscription data from the frontend and decides,
//! from it and the account's credits, whether an operation may go ahead.
//! The price of tokens is configured as a fractional number, so the credit
//! cost of a token count is computed by the caller and handed in.

use vstd::prelude::*;
use crate::billing::{SubscriptionInfo, SubscriptionStatus};
use crate::text::{concat, u64_to_decimal, decimal};

verus! {

/// Error types for billing operations.
#[derive(Debug, Clone)]
pub enum BillingError {
    /// Subscription not found
    SubscriptionNotFound(String),
    /// Account not found
    AccountNotFound(String),
    /// Insufficient credits
    InsufficientCredits(String),
    /// Other error
    Other(String),
}

/// The one-line description of a billing error.
pub open spec fn spec_billing_error_text(e: BillingError) -> Seq<char> {
    match e {
        BillingError::SubscriptionNotFound(m) => "Subscription not found: "@ + m@,
        BillingError::AccountNotFound(m) => "Account not found: "@ + m@,
        BillingError::InsufficientCredits(m) => "Insufficient credits: "@ + m@,
        BillingError::Other(m) => "Other error: "@ + m@,
    }
}

impl BillingError {
    /// The one-line description of the error.
    pub fn describe(&self) -> (r: String)
        ensures
            r@ == spec_billing_error_text(*self),
    {
        match self {
            BillingError::SubscriptionNotFound(m) => concat("Subscription not found: ", m.as_str()),
            BillingError::AccountNotFound(m) => concat("Account not found: ", m.as_str()),
            BillingError::InsufficientCredits(m) => concat("Insufficient credits: ", m.as_str()),
            BillingError::Other(m) => concat("Other error: ", m.as_str()),
        }
    }
}

/// The subscription is active or in its trial.
pub open spec fn spec_active_or_trial(s: SubscriptionInfo) -> bool {
    s.status == SubscriptionStatus::Active || s.status == SubscriptionStatus::Trial
}

/// `text` followed by `n` in decimal.
fn with_number(text: &str, n: u64) -> (r: String)
    ensures
        r@ == text@ + decimal(n as nat),
{
    let d = u64_to_decimal(n);
    concat(text, d.as_str())
}

/// `prefix`, then `available=` and `required=` with the two numbers.
fn credits_text(prefix: &str, available: u64, required: u64) -> (r: String)
    ensures
        r@ == prefix@ + "available="@ + decimal(available as nat) + ", required="@ + decimal(required as nat),
{
    let a = concat(prefix, "available=");
    let b = with_number(a.as_str(), available);
    let c = concat(b.as_str(), ", required=");
    with_number(c.as_str(), required)
}

/// Whether a token request is allowed: an active or trial subscription
/// covers `token_count` within its period credits; otherwise the
/// pay-as-you-go credits must cover `credit_cost`.
pub open spec fn spec_token_eligible(sub: Option<SubscriptionInfo>, token_count: u64, available: u64, credit_cost: u64) -> bool {
    match sub {
        Some(s) => if spec_active_or_trial(s) {
            token_count <= s.inference_credits_per_period || available >= credit_cost
        } else {
            available >= credit_cost
        },
        None => available >= credit_cost,
    }
}

/// The message of a refused token request.
pub open spec fn spec_token_refusal(sub: Option<SubscriptionInfo>, available: u64, credit_cost: u64) -> Seq<char> {
    let prefix = match sub {
        Some(s) => if spec_active_or_trial(s) {
            "Account has insufficient credits: "@
        } else {
            "Account has inactive subscription and insufficient credits: "@
        },
        None => "Account has no subscription and insufficient credits: "@,
    };
    prefix + "available="@ + decimal(available as nat) + ", required="@ + decimal(credit_cost as nat)
}

/// Checks if an account has sufficient credits for `token_count` tokens,
/// whose pay-as-you-go price is `credit_cost` credits.
pub fn token_eligibility(
    stored_subscription: &Option<SubscriptionInfo>,
    token_count: u64,
    available_credits: u64,
    credit_cost: u64,
) -> (r: Result<bool, BillingError>)
    ensures
        r is Ok <==> spec_token_eligible(*stored_subscription, token_count, available_credits, credit_cost),
        r matches Ok(b) ==> b,
        r matches Err(e) ==> e matches BillingError::InsufficientCredits(m)
            && m@ == spec_token_refusal(*stored_subscription, available_credits, credit_cost),
{
    if let Some(subscription) = stored_subscription {
        if subscription.status == SubscriptionStatus::Active || subscription.status == SubscriptionStatus::Trial {
            if token_count <= subscription.inference_credits_per_period {
                return Ok(true);
            }
            if available_credits >= credit_cost {
                return Ok(true);
            }
            return Err(BillingError::InsufficientCredits(
                credits_text("Account has insufficient credits: ", available_credits, credit_cost),
            ));
        }
        if available_credits >= credit_cost {
            return Ok(true);
        }
        return Err(BillingError::InsufficientCredits(
            credits_text("Account has inactive subscription and insufficient credits: ", available_credits, credit_cost),
        ));
    }
    if available_credits >= credit_cost {
        return Ok(true);
    }
    Err(BillingError::InsufficientCredits(
        credits_text("Account has no subscription and insufficient credits: ", available_credits, credit_cost),
    ))
}

/// Whether an agent may be hired: under the subscription's agent limit if it
/// is active or in trial; otherwise the credits must cover `hire_cost`.
pub open spec fn spec_agent_eligible(sub: Option<SubscriptionInfo>, current_agents: u32, available: u64, hire_cost: u64) -> bool {
    match sub {
        Some(s) => if spec_active_or_trial(s) {
            current_agents < s.max_agents || available >= hire_cost
        } else {
            available >= hire_cost
        },
        None => available >= hire_cost,
    }
}

/// The message of a refused hire.
pub open spec fn spec_agent_refusal(sub: Option<SubscriptionInfo>, current_agents: u32, available: u64, hire_cost: u64) -> Seq<char> {
    match sub {
        Some(s) => if spec_active_or_trial(s) {
            "Account has reached agent limit and has insufficient credits: current_agents="@
                + decimal(current_agents as nat) + ", max_agents="@ + decimal(s.max_agents as nat)
                + ", available_credits="@ + decimal(available as nat) + ", required="@ + decimal(hire_cost as nat)
        } else {
            "Account has inactive subscription and insufficient credits: available_credits="@
                + decimal(available as nat) + ", required="@ + decimal(hire_cost as nat)
        },
        None => "Account has no subscription and insufficient credits: available_credits="@
            + decimal(available as nat) + ", required="@ + decimal(hire_cost as nat),
    }
}

/// Checks if an account can hire another agent, when hiring beyond the
/// subscription's limit costs `agent_hire_credit_cost` credits.
pub fn agent_eligibility(
    stored_subscription: &Option<SubscriptionInfo>,
    current_agents: u32,
    available_credits: u64,
    agent_hire_credit_cost: u64,
) -> (r: Result<bool, BillingError>)
    ensures
        r is Ok <==> spec_agent_eligible(*stored_subscription, current_agents, available_credits, agent_hire_credit_cost),
        r matches Ok(b) ==> b,
        r matches Err(e) ==> e matches BillingError::InsufficientCredits(m)
            && m@ == spec_agent_refusal(*stored_subscription, current_agents, available_credits, agent_hire_credit_cost),
{
    if let Some(subscription) = stored_subscription {
        if subscription.status == SubscriptionStatus::Active || subscription.status == SubscriptionStatus::Trial {
            if current_agents < subscription.max_agents {
                return Ok(true);
            }
            if available_credits >= agent_hire_credit_cost {
                return Ok(true);
            }
            let a = with_number(
                "Account has reached agent limit and has insufficient credits: current_agents=",
                current_agents as u64,
            );
            let b = concat(a.as_str(), ", max_agents=");
            let c = with_number(b.as_str(), subscription.max_agents as u64);
            let d = concat(c.as_str(), ", available_credits=");
            let e = with_number(d.as_str(), available_credits);
            let f = concat(e.as_str(), ", required=");
            return Err(BillingError::InsufficientCredits(with_number(f.as_str(), agent_hire_credit_cost)));
        }
        if available_credits >= agent_hire_credit_cost {
            return Ok(true);
        }
        let a = with_number("Account has inactive subscription and insufficient credits: available_credits=", available_credits);
        let b = concat(a.as_str(), ", required=");
        return Err(BillingError::InsufficientCredits(with_number(b.as_str(), agent_hire_credit_cost)));
    }
    if available_credits >= agent_hire_credit_cost {
        return Ok(true);
    }
    let a = with_number("Account has no subscription and insufficient credits: available_credits=", available_credits);
    let b = concat(a.as_str(), ", required=");
    Err(BillingError::InsufficientCredits(with_number(b.as_str(), agent_hire_credit_cost)))
}

/// Billing transaction record; `created_at` is in Unix seconds.
#[derive(Debug, Clone)]
pub struct BillingTransaction {
    /// Transaction ID
    pub id: String,
    /// Account ID
    pub account_id: String,
    /// Amount
    pub amount: u64,
    /// Description
    pub description: String,
    /// Credits added or consumed
    pub credits: u64,
    /// Creation timestamp
    pub created_at: i64,
    /// Status (completed, failed, etc.)
    pub status: String,
}


/// More credits never turn an allowed token request or hire into a
/// refused one.
pub proof fn lemma_eligibility_monotone(sub: Option<SubscriptionInfo>, token_count: u64, current_agents: u32,
    fewer: u64, more: u64, cost: u64)
    requires
        fewer <= more,
    ensures
        spec_token_eligible(sub, token_count, fewer, cost) ==> spec_token_eligible(sub, token_count, more, cost),
        spec_agent_eligible(sub, current_agents, fewer, cost) ==> spec_agent_eligible(sub, current_agents, more, cost),
{
}

} // verus!
