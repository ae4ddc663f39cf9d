//! The answers of the billing handlers: an account's subscription status
//! and usage, and the credits and subscriptions that checkout hands in.

use vstd::prelude::*;
use crate::accounts::{Account, spec_available_credits};
use crate::billing::{SubscriptionInfo, SubscriptionStatus, SubscriptionTier};
use crate::billing::usage::UsageTracker;
use crate::clock::{rfc3339, rfc3339_of, time_ok};

verus! {

/// Usage statistics for a specific agent.
#[derive(Debug, Clone)]
pub struct AgentUsage {
    /// Agent ID
    pub agent_id: String,
    /// Number of requests
    pub requests: u64,
    /// Total tokens consumed (if applicable)
    pub tokens: Option<u64>,
    /// Whether the agent is currently hired
    pub is_hired: bool,
}

/// Usage statistics for a specific model.
#[derive(Debug, Clone)]
pub struct ModelUsage {
    /// Model ID
    pub model_id: String,
    /// Total tokens consumed
    pub tokens: u64,
}

/// Request for adding credits.
#[derive(Debug, Clone)]
pub struct AddCreditsRequest {
    /// Number of credits to add
    pub amount: u64,
    /// Stripe payment intent ID (if available)
    pub payment_intent_id: Option<String>,
}

/// Request for verifying a subscription.
#[derive(Debug, Clone)]
pub struct ApiVerifySubscription {
    /// Account ID
    pub account_id: String,
}

/// The data of a processed checkout session.
#[derive(Debug, Clone)]
pub struct ApiProcessStripeCheckoutSession {
    /// Stripe checkout session ID
    pub session_id: String,
    /// Account ID
    pub account_id: String,
    /// Subscription info (optional)
    pub subscription_info: Option<SubscriptionInfo>,
    /// Credits to add (optional)
    pub credits_added: Option<u64>,
}

/// Response for subscription information; times are RFC 3339 text.
#[derive(Debug, Clone)]
pub struct SubscriptionResponse {
    pub tier: SubscriptionTier,
    pub status: SubscriptionStatus,
    pub max_agents: u32,
    pub current_agents: u32,
    pub inference_credits: u64,
    pub current_period_tokens: u64,
    pub current_period_start: String,
    pub current_period_end: String,
    pub auto_renew: bool,
}

/// The tokens of the current period according to an optional tracker.
pub open spec fn spec_period_tokens(u: Option<UsageTracker>) -> u64 {
    match u {
        Some(t) => match t.spec_current() {
            Some(p) => p.tokens_consumed,
            None => 0,
        },
        None => 0,
    }
}

/// The subscription status of an account whose subscription (or, without
/// one, the default subscription) is `s`.
pub open spec fn spec_subscription_response(r: SubscriptionResponse, a: Account, s: SubscriptionInfo) -> bool {
    &&& r.tier == s.tier
    &&& r.status == s.status
    &&& r.max_agents == s.max_agents
    &&& r.current_agents == a.hired_agents.spec_set().len() as u32
    &&& r.inference_credits == s.inference_credits_per_period
    &&& r.current_period_tokens == spec_period_tokens(a.usage)
    &&& Some(r.current_period_start@) == rfc3339_of(s.current_period_start)
    &&& Some(r.current_period_end@) == rfc3339_of(s.current_period_end)
    &&& r.auto_renew == s.auto_renew
}

/// The subscription status of `account` given its subscription (or the
/// default one); none if a period time cannot be written as a date.
pub fn subscription_response_for(account: &Account, subscription: &SubscriptionInfo) -> (r: Option<SubscriptionResponse>)
    ensures
        match r {
            Some(resp) => spec_subscription_response(resp, *account, *subscription),
            None => rfc3339_of(subscription.current_period_start) is None || rfc3339_of(subscription.current_period_end) is None,
        },
{
    let current_tokens = account.current_period_token_usage();
    let start = match rfc3339(subscription.current_period_start) {
        Some(s) => s,
        None => {
            return None;
        },
    };
    let end = match rfc3339(subscription.current_period_end) {
        Some(s) => s,
        None => {
            return None;
        },
    };
    Some(SubscriptionResponse {
        tier: subscription.tier,
        status: subscription.status,
        max_agents: subscription.max_agents,
        current_agents: account.hired_agent_count() as u32,
        inference_credits: subscription.inference_credits_per_period,
        current_period_tokens: current_tokens,
        current_period_start: start,
        current_period_end: end,
        auto_renew: subscription.auto_renew,
    })
}

/// The subscription status of `account`; without a subscription, that of
/// a new Free trial.
pub fn subscription_response(account: &Account) -> (r: Option<SubscriptionResponse>)
    ensures
        match account.subscription {
            Some(s) => match r {
                Some(resp) => spec_subscription_response(resp, *account, s),
                None => rfc3339_of(s.current_period_start) is None || rfc3339_of(s.current_period_end) is None,
            },
            None => exists|s: SubscriptionInfo| {
                &&& time_ok(s.created_at)
                &&& #[trigger] s.spec_fresh(SubscriptionTier::Free, s.created_at)
                &&& match r {
                    Some(resp) => spec_subscription_response(resp, *account, s),
                    None => rfc3339_of(s.current_period_start) is None || rfc3339_of(s.current_period_end) is None,
                }
            },
        },
{
    match &account.subscription {
        Some(s) => subscription_response_for(account, s),
        None => {
            let s = SubscriptionInfo::default();
            let r = subscription_response_for(account, &s);
            proof {
                assert(time_ok(s.created_at) && s.spec_fresh(SubscriptionTier::Free, s.created_at));
            }
            r
        },
    }
}

/// Response for usage statistics.
#[derive(Debug)]
pub struct UsageResponse {
    pub total_agent_requests: u64,
    pub total_tokens_consumed: u64,
    pub agents_hired: u32,
    pub agent_usage: Vec<AgentUsage>,
    pub model_usage: Vec<ModelUsage>,
    pub available_credits: u64,
    pub credits_used: u64,
    pub subscription: Option<SubscriptionInfo>,
}

/// Tokens per credit in the usage report.
pub const TOKENS_PER_REPORTED_CREDIT: u64 = 100_000;

/// Every model's tokens (input and output) fit.
pub open spec fn model_totals_fit(t: UsageTracker) -> bool {
    forall|i: int| 0 <= i < t.model_usage.spec_len()
        ==> (#[trigger] t.model_usage.spec_entries()[i]).1.input_tokens + t.model_usage.spec_entries()[i].1.output_tokens <= u64::MAX
}

/// The usage report of an account: its hired agents, credits and
/// subscription; with a tracker, the current period's requests and tokens,
/// each hired agent, each model's tokens, and a credit per hundred
/// thousand tokens used.
pub fn usage_response(account: &Account) -> (r: UsageResponse)
    requires
        account.usage matches Some(u) ==> model_totals_fit(u),
    ensures
        r.agents_hired == account.hired_agents.spec_set().len() as u32,
        r.available_credits == spec_available_credits(*account),
        r.subscription == account.subscription,
        match account.usage {
            Some(u) => {
                let cur = u.spec_current();
                &&& r.total_agent_requests == (match cur { Some(p) => p.agent_requests, None => 0 })
                &&& r.total_tokens_consumed == (match cur { Some(p) => p.tokens_consumed, None => 0 })
                &&& r.credits_used == r.total_tokens_consumed / TOKENS_PER_REPORTED_CREDIT
                &&& r.agent_usage@.len() == account.hired_agents.spec_items().len()
                &&& forall|i: int| 0 <= i < r.agent_usage@.len() ==> {
                    &&& (#[trigger] r.agent_usage@[i]).agent_id@ == account.hired_agents.spec_items()[i]
                    &&& r.agent_usage@[i].requests == 0
                    &&& r.agent_usage@[i].tokens is None
                    &&& r.agent_usage@[i].is_hired
                }
                &&& r.model_usage@.len() == u.model_usage.spec_len()
                &&& forall|i: int| 0 <= i < r.model_usage@.len() ==> {
                    &&& (#[trigger] r.model_usage@[i]).model_id@ == u.model_usage.spec_keys()[i]
                    &&& r.model_usage@[i].tokens == u.model_usage.spec_entries()[i].1.input_tokens
                        + u.model_usage.spec_entries()[i].1.output_tokens
                }
            },
            None => {
                &&& r.total_agent_requests == 0
                &&& r.total_tokens_consumed == 0
                &&& r.credits_used == 0
                &&& r.agent_usage@.len() == 0
                &&& r.model_usage@.len() == 0
            },
        },
{
    let subscription = match &account.subscription {
        Some(s) => Some(s.copy()),
        None => None,
    };
    let mut agent_usage: Vec<AgentUsage> = Vec::new();
    let mut model_usage: Vec<ModelUsage> = Vec::new();
    let mut total_agent_requests: u64 = 0;
    let mut total_tokens_consumed: u64 = 0;
    let mut credits_used: u64 = 0;
    if let Some(usage) = &account.usage {
        let current = usage.current_usage();
        total_agent_requests = current.agent_requests;
        total_tokens_consumed = current.tokens_consumed;
        let hired = account.hired_agents.items();
        let mut i: usize = 0;
        while i < hired.len()
            invariant
                i <= hired@.len(),
                crate::ordered::views(hired@) == account.hired_agents.spec_items(),
                agent_usage@.len() == i,
                forall|j: int| 0 <= j < i ==> {
                    &&& (#[trigger] agent_usage@[j]).agent_id@ == account.hired_agents.spec_items()[j]
                    &&& agent_usage@[j].requests == 0
                    &&& agent_usage@[j].tokens is None
                    &&& agent_usage@[j].is_hired
                },
            decreases hired@.len() - i,
        {
            agent_usage.push(AgentUsage { agent_id: hired[i].clone(), requests: 0, tokens: None, is_hired: true });
            i += 1;
        }
        let models = usage.model_usage.entries();
        let mut k: usize = 0;
        while k < models.len()
            invariant
                k <= models@.len(),
                models@ == usage.model_usage.spec_entries(),
                model_totals_fit(*usage),
                model_usage@.len() == k,
                forall|j: int| 0 <= j < k ==> {
                    &&& (#[trigger] model_usage@[j]).model_id@ == usage.model_usage.spec_keys()[j]
                    &&& model_usage@[j].tokens == usage.model_usage.spec_entries()[j].1.input_tokens
                        + usage.model_usage.spec_entries()[j].1.output_tokens
                },
            decreases models@.len() - k,
        {
            let tokens = models[k].1.input_tokens + models[k].1.output_tokens;
            model_usage.push(ModelUsage { model_id: models[k].0.clone(), tokens });
            k += 1;
        }
        credits_used = current.tokens_consumed / TOKENS_PER_REPORTED_CREDIT;
    }
    UsageResponse {
        total_agent_requests,
        total_tokens_consumed,
        agents_hired: account.hired_agents.len() as u32,
        agent_usage,
        model_usage,
        available_credits: account.available_credits(),
        credits_used,
        subscription,
    }
}

/// What a processed checkout session did to an account.
#[derive(Debug, Clone, Copy, PartialEq, Eq, Structural)]
pub enum CheckoutOutcome {
    /// The subscription was replaced
    SubscriptionUpdated,
    /// Credits were added
    CreditsAdded,
    /// The session carried neither (status 400)
    NothingToApply,
}

/// Applies a processed checkout session to an account: a subscription, if
/// the session carries one, replaces the account's; else credits, if it
/// carries any, are added.
pub fn apply_checkout(account: &mut Account, subscription_info: Option<SubscriptionInfo>, credits_added: Option<u64>) -> (r: CheckoutOutcome)
    ensures
        match subscription_info {
            Some(s) => r == CheckoutOutcome::SubscriptionUpdated && final(account).subscription == Some(s)
                && final(account).credits == old(account).credits,
            None => match credits_added {
                Some(c) => r == CheckoutOutcome::CreditsAdded && final(account).credits
                    == if old(account).credits + c > u64::MAX { u64::MAX as int } else { old(account).credits + c }
                    && final(account).subscription == old(account).subscription,
                None => r == CheckoutOutcome::NothingToApply && *final(account) == *old(account),
            },
        },
        final(account).address == old(account).address,
        final(account).api_keys == old(account).api_keys,
        final(account).usage == old(account).usage,
{
    if let Some(s) = subscription_info {
        account.subscription = Some(s);
        return CheckoutOutcome::SubscriptionUpdated;
    }
    if let Some(c) = credits_added {
        account.add_credits(c);
        return CheckoutOutcome::CreditsAdded;
    }
    CheckoutOutcome::NothingToApply
}

} // verus!
