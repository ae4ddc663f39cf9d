//! Subscriptions and usage-based billing: tiers and their quotas, the state
//! of a subscription, and the tracking of token and agent usage.

use vstd::prelude::*;
use crate::clock::{utc_now_secs, time_ok};
use crate::text::owned;

pub mod usage;
pub mod stripe;
pub mod middleware;
pub mod handlers;

pub use self::usage::{ModelUsage, PeriodUsage, DailyUsage, UsageTracker, AgentUsageStats, AgentPeriodUsage};

verus! {

/// Subscription tier levels, from smallest to largest.
#[derive(Debug, Clone, Copy, PartialEq, Eq, Structural)]
pub enum SubscriptionTier {
    /// Free tier with limited capabilities
    Free,
    /// Pro tier with higher limits
    Pro,
    /// Professional Plus tier
    ProPlus,
    /// Power tier for larger workloads
    Power,
    /// Power Plus tier for maximum capability
    PowerPlus,
}

impl Default for SubscriptionTier {
    fn default() -> (r: Self)
        ensures
            r == SubscriptionTier::Free,
    {
        SubscriptionTier::Free
    }
}

/// The position of a tier, from Free (0) to PowerPlus (4).
pub open spec fn tier_rank(t: SubscriptionTier) -> nat {
    match t {
        SubscriptionTier::Free => 0,
        SubscriptionTier::Pro => 1,
        SubscriptionTier::ProPlus => 2,
        SubscriptionTier::Power => 3,
        SubscriptionTier::PowerPlus => 4,
    }
}

/// Agents included in a tier.
pub open spec fn spec_tier_max_agents(t: SubscriptionTier) -> u32 {
    match t {
        SubscriptionTier::Free => 1,
        SubscriptionTier::Pro => 3,
        SubscriptionTier::ProPlus => 5,
        SubscriptionTier::Power => 10,
        SubscriptionTier::PowerPlus => 25,
    }
}

/// Inference credits per billing period of a tier.
pub open spec fn spec_tier_inference_credits(t: SubscriptionTier) -> u64 {
    match t {
        SubscriptionTier::Free => 100,
        SubscriptionTier::Pro => 500,
        SubscriptionTier::ProPlus => 1000,
        SubscriptionTier::Power => 5000,
        SubscriptionTier::PowerPlus => 10000,
    }
}

/// Daily token limit of a tier; `None` is unlimited.
pub open spec fn spec_tier_daily_token_limit(t: SubscriptionTier) -> Option<u64> {
    match t {
        SubscriptionTier::Free => Some(100_000),
        SubscriptionTier::Pro => Some(500_000),
        _ => None,
    }
}

/// API keys allowed in a tier.
pub open spec fn spec_tier_max_api_keys(t: SubscriptionTier) -> u32 {
    match t {
        SubscriptionTier::Free => 2,
        SubscriptionTier::Pro => 5,
        SubscriptionTier::ProPlus => 10,
        SubscriptionTier::Power => 20,
        SubscriptionTier::PowerPlus => 50,
    }
}

/// The model access tiers, from the most basic.
pub open spec fn model_tier_names() -> Seq<Seq<char>> {
    seq!["basic"@, "standard"@, "advanced"@, "enterprise"@, "expert"@]
}

/// The model access tiers open to a subscription tier: the first one, two,
/// three, four or five of `basic`, `standard`, `advanced`, `enterprise`, `expert`.
pub open spec fn spec_tier_model_access(t: SubscriptionTier) -> Seq<Seq<char>> {
    model_tier_names().take(tier_rank(t) as int + 1)
}

/// Discount percentage on additional agents in a tier.
pub open spec fn spec_tier_agent_discount(t: SubscriptionTier) -> u8 {
    match t {
        SubscriptionTier::Free => 0,
        SubscriptionTier::Pro => 10,
        SubscriptionTier::ProPlus => 15,
        SubscriptionTier::Power => 20,
        SubscriptionTier::PowerPlus => 25,
    }
}

/// Premium models allowed in a tier.
pub open spec fn spec_tier_max_premium_models(t: SubscriptionTier) -> u32 {
    match t {
        SubscriptionTier::Free => 0,
        SubscriptionTier::Pro => 1,
        SubscriptionTier::ProPlus => 3,
        SubscriptionTier::Power => 10,
        SubscriptionTier::PowerPlus => 25,
    }
}

/// Whether a tier may hire premium agents: every tier but Free.
pub open spec fn spec_tier_premium_agents(t: SubscriptionTier) -> bool {
    t != SubscriptionTier::Free
}

/// Quota settings for a subscription tier.
#[derive(Debug, Clone)]
pub struct SubscriptionQuota {
    /// Maximum number of agents included in the subscription
    pub max_agents: u32,
    /// Inference credits allocated per billing period
    pub inference_credits: u64,
    /// Optional daily token limit (None means unlimited)
    pub daily_token_limit: Option<u64>,
    /// Maximum number of API keys that can be created
    pub max_api_keys: u32,
    /// Model access tiers available to this subscription
    pub model_access: Vec<String>,
    /// Discount percentage on additional agents (beyond the max included)
    pub additional_agent_discount: u8,
    /// Maximum number of premium models that can be used
    pub max_premium_models: u32,
    /// Whether this tier has access to premium agents
    pub premium_agent_access: bool,
}

/// The contents of a list of strings.
pub open spec fn string_views(v: Seq<String>) -> Seq<Seq<char>> {
    v.map_values(|s: String| s@)
}

/// `q` holds the quota of tier `t`.
pub open spec fn is_quota_of(q: SubscriptionQuota, t: SubscriptionTier) -> bool {
    &&& q.max_agents == spec_tier_max_agents(t)
    &&& q.inference_credits == spec_tier_inference_credits(t)
    &&& q.daily_token_limit == spec_tier_daily_token_limit(t)
    &&& q.max_api_keys == spec_tier_max_api_keys(t)
    &&& string_views(q.model_access@) == spec_tier_model_access(t)
    &&& q.additional_agent_discount == spec_tier_agent_discount(t)
    &&& q.max_premium_models == spec_tier_max_premium_models(t)
    &&& q.premium_agent_access == spec_tier_premium_agents(t)
}

/// The model access tiers up to and including position `n - 1`.
fn model_access_list(n: usize) -> (r: Vec<String>)
    requires
        1 <= n <= 5,
    ensures
        string_views(r@) == model_tier_names().take(n as int),
{
    let mut v: Vec<String> = Vec::new();
    v.push(owned("basic"));
    if n > 1 {
        v.push(owned("standard"));
    }
    if n > 2 {
        v.push(owned("advanced"));
    }
    if n > 3 {
        v.push(owned("enterprise"));
    }
    if n > 4 {
        v.push(owned("expert"));
    }
    assert(string_views(v@) =~= model_tier_names().take(n as int));
    v
}

impl SubscriptionTier {
    /// Get the quota settings for this subscription tier.
    pub fn quota(&self) -> (r: SubscriptionQuota)
        ensures
            is_quota_of(r, *self),
    {
        match self {
            SubscriptionTier::Free => SubscriptionQuota {
                max_agents: 1,
                inference_credits: 100,
                daily_token_limit: Some(100_000),
                max_api_keys: 2,
                model_access: model_access_list(1),
                additional_agent_discount: 0,
                max_premium_models: 0,
                premium_agent_access: false,
            },
            SubscriptionTier::Pro => SubscriptionQuota {
                max_agents: 3,
                inference_credits: 500,
                daily_token_limit: Some(500_000),
                max_api_keys: 5,
                model_access: model_access_list(2),
                additional_agent_discount: 10,
                max_premium_models: 1,
                premium_agent_access: true,
            },
            SubscriptionTier::ProPlus => SubscriptionQuota {
                max_agents: 5,
                inference_credits: 1000,
                daily_token_limit: None,
                max_api_keys: 10,
                model_access: model_access_list(3),
                additional_agent_discount: 15,
                max_premium_models: 3,
                premium_agent_access: true,
            },
            SubscriptionTier::Power => SubscriptionQuota {
                max_agents: 10,
                inference_credits: 5000,
                daily_token_limit: None,
                max_api_keys: 20,
                model_access: model_access_list(4),
                additional_agent_discount: 20,
                max_premium_models: 10,
                premium_agent_access: true,
            },
            SubscriptionTier::PowerPlus => SubscriptionQuota {
                max_agents: 25,
                inference_credits: 10000,
                daily_token_limit: None,
                max_api_keys: 50,
                model_access: model_access_list(5),
                additional_agent_discount: 25,
                max_premium_models: 25,
                premium_agent_access: true,
            },
        }
    }
}

/// A higher tier never offers less than a lower one (in the order Free <
/// Pro < ProPlus < Power < PowerPlus): as many agents, credits, API keys,
/// premium models and discount or more, the lower one's model tiers as the
/// start of its own, and a daily limit no smaller (or none); exactly the
/// tiers from ProPlus on have no daily limit.
pub proof fn lemma_quota_monotone(a: SubscriptionTier, b: SubscriptionTier)
    requires
        tier_rank(a) <= tier_rank(b),
    ensures
        spec_tier_max_agents(a) <= spec_tier_max_agents(b),
        spec_tier_inference_credits(a) <= spec_tier_inference_credits(b),
        spec_tier_max_api_keys(a) <= spec_tier_max_api_keys(b),
        spec_tier_max_premium_models(a) <= spec_tier_max_premium_models(b),
        spec_tier_agent_discount(a) <= spec_tier_agent_discount(b),
        spec_tier_premium_agents(a) ==> spec_tier_premium_agents(b),
        forall|m: Seq<char>| spec_tier_model_access(a).contains(m) ==> #[trigger] spec_tier_model_access(b).contains(m),
        spec_tier_model_access(a).len() <= spec_tier_model_access(b).len(),
        spec_tier_model_access(b).subrange(0, spec_tier_model_access(a).len() as int) == spec_tier_model_access(a),
        spec_tier_daily_token_limit(a) is None <==> tier_rank(a) >= 2,
        match (spec_tier_daily_token_limit(a), spec_tier_daily_token_limit(b)) {
            (Some(x), Some(y)) => x <= y,
            (Some(_), None) => true,
            (None, Some(_)) => false,
            (None, None) => true,
        },
{
    assert forall|m: Seq<char>| spec_tier_model_access(a).contains(m) implies #[trigger] spec_tier_model_access(b).contains(m) by {
        let i = choose|i: int| 0 <= i < spec_tier_model_access(a).len() && spec_tier_model_access(a)[i] == m;
        assert(spec_tier_model_access(b)[i] == m);
    }
    assert(spec_tier_model_access(b).subrange(0, spec_tier_model_access(a).len() as int) =~= spec_tier_model_access(a));
}

/// Subscription status.
#[derive(Debug, Clone, Copy, PartialEq, Eq, Structural)]
pub enum SubscriptionStatus {
    /// Subscription is active
    Active,
    /// Subscription is in trial period
    Trial,
    /// Payment is past due but subscription still active
    PastDue,
    /// Subscription is canceled
    Canceled,
    /// Subscription has expired
    Expired,
    /// Error with subscription
    Error,
}

impl Default for SubscriptionStatus {
    fn default() -> (r: Self)
        ensures
            r == SubscriptionStatus::Trial,
    {
        SubscriptionStatus::Trial
    }
}

/// The length of a billing period: thirty days, in seconds.
pub const BILLING_PERIOD_SECS: i64 = 2_592_000;

/// The end of a billing period that starts at `start`.
pub open spec fn spec_period_end(start: i64) -> i64 {
    if start <= i64::MAX - BILLING_PERIOD_SECS { (start + BILLING_PERIOD_SECS) as i64 } else { i64::MAX }
}

/// The end of a billing period that starts at `start`.
pub fn period_end(start: i64) -> (r: i64)
    ensures
        r == spec_period_end(start),
{
    if start <= i64::MAX - BILLING_PERIOD_SECS { start + BILLING_PERIOD_SECS } else { i64::MAX }
}

/// Subscription information; times are Unix seconds.
#[derive(Debug, Clone)]
pub struct SubscriptionInfo {
    /// Stripe customer ID
    pub stripe_customer_id: Option<String>,
    /// Stripe subscription ID
    pub stripe_subscription_id: Option<String>,
    /// Subscription tier
    pub tier: SubscriptionTier,
    /// Subscription status
    pub status: SubscriptionStatus,
    /// When the subscription was created
    pub created_at: i64,
    /// When the current billing period started
    pub current_period_start: i64,
    /// When the current billing period ends
    pub current_period_end: i64,
    /// Whether the subscription will auto-renew
    pub auto_renew: bool,
    /// Maximum number of agents allowed
    pub max_agents: u32,
    /// Inference credits per billing period
    pub inference_credits_per_period: u64,
}

impl SubscriptionInfo {
    /// A fresh trial subscription of `tier` that starts at `now`.
    pub open spec fn spec_fresh(&self, tier: SubscriptionTier, now: i64) -> bool {
        &&& self.stripe_customer_id is None
        &&& self.stripe_subscription_id is None
        &&& self.tier == tier
        &&& self.status == SubscriptionStatus::Trial
        &&& self.created_at == now
        &&& self.current_period_start == now
        &&& self.current_period_end == spec_period_end(now)
        &&& !self.auto_renew
        &&& self.max_agents == spec_tier_max_agents(tier)
        &&& self.inference_credits_per_period == spec_tier_inference_credits(tier)
    }

    /// A copy of the subscription.
    pub fn copy(&self) -> (r: Self)
        ensures
            r == *self,
    {
        SubscriptionInfo {
            stripe_customer_id: match &self.stripe_customer_id {
                Some(s) => Some(s.clone()),
                None => None,
            },
            stripe_subscription_id: match &self.stripe_subscription_id {
                Some(s) => Some(s.clone()),
                None => None,
            },
            tier: self.tier,
            status: self.status,
            created_at: self.created_at,
            current_period_start: self.current_period_start,
            current_period_end: self.current_period_end,
            auto_renew: self.auto_renew,
            max_agents: self.max_agents,
            inference_credits_per_period: self.inference_credits_per_period,
        }
    }

    /// Get the quota for this subscription.
    pub fn quota(&self) -> (r: SubscriptionQuota)
        ensures
            is_quota_of(r, self.tier),
    {
        self.tier.quota()
    }

    /// A trial subscription of `tier` that starts at `now`.
    pub fn new_at(tier: SubscriptionTier, now: i64) -> (r: Self)
        ensures
            r.spec_fresh(tier, now),
    {
        let quota = tier.quota();
        SubscriptionInfo {
            stripe_customer_id: None,
            stripe_subscription_id: None,
            tier,
            status: SubscriptionStatus::Trial,
            created_at: now,
            current_period_start: now,
            current_period_end: period_end(now),
            auto_renew: false,
            max_agents: quota.max_agents,
            inference_credits_per_period: quota.inference_credits,
        }
    }

    /// Create a new trial subscription with the specified tier, starting now.
    pub fn new(tier: SubscriptionTier) -> (r: Self)
        ensures
            exists|now: i64| time_ok(now) && r.spec_fresh(tier, now),
    {
        let now = utc_now_secs();
        Self::new_at(tier, now)
    }

}

impl Default for SubscriptionInfo {
    /// A Free trial subscription starting now.
    fn default() -> (r: Self)
        ensures
            exists|now: i64| time_ok(now) && r.spec_fresh(SubscriptionTier::Free, now),
    {
        Self::new(SubscriptionTier::Free)
    }
}

} // verus!
