//! User accounts: what they own, where they are authorized, their
//! subscription, credits, usage and API keys, and the rules on hiring
//! agents and using tokens.

use vstd::prelude::*;
use crate::api_keys::{ApiKey, ApiKeyStatus, spec_hashed, spec_key_valid_at};
use crate::billing::{SubscriptionInfo, SubscriptionStatus, SubscriptionTier, UsageTracker, spec_tier_max_api_keys, spec_tier_model_access, spec_tier_premium_agents, spec_tier_agent_discount, spec_tier_daily_token_limit, spec_tier_max_premium_models};
use crate::billing::usage::{usage_total, spec_token_cost, tracker_is_new};
use crate::clock::{utc_now_secs, time_ok, day_key_of};
use crate::ordered::{StrMap, StrSet};
use crate::text::{concat, contains, seq_contains, split_spec, first_piece, str_eq, u64_to_decimal, decimal};

verus! {

/// The level of authorization an account has for an instance, from most to
/// least powerful.
#[derive(Debug, Clone, Copy, PartialEq, Eq, Structural)]
pub enum AuthorizationLevel {
    /// Full access - can perform all operations including ownership transfer
    Owner,
    /// Can perform operations except ownership transfer
    Manager,
    /// Can view and start/stop but not modify
    Operator,
    /// Can only view status
    ReadOnly,
}

/// Whether an account holding `level` may perform an operation that needs
/// `required`: an owner anything, a manager all but owner operations, an
/// operator neither owner nor manager operations, a read-only account only
/// read-only ones.
pub open spec fn spec_level_permits(level: AuthorizationLevel, required: AuthorizationLevel) -> bool {
    match (level, required) {
        (AuthorizationLevel::Owner, _) => true,
        (AuthorizationLevel::Manager, AuthorizationLevel::Owner) => false,
        (AuthorizationLevel::Manager, _) => true,
        (AuthorizationLevel::Operator, AuthorizationLevel::Owner) => false,
        (AuthorizationLevel::Operator, AuthorizationLevel::Manager) => false,
        (AuthorizationLevel::Operator, _) => true,
        (AuthorizationLevel::ReadOnly, AuthorizationLevel::ReadOnly) => true,
        (AuthorizationLevel::ReadOnly, _) => false,
    }
}

/// The position of a level, from Owner (0) to ReadOnly (3).
pub open spec fn level_position(l: AuthorizationLevel) -> nat {
    match l {
        AuthorizationLevel::Owner => 0,
        AuthorizationLevel::Manager => 1,
        AuthorizationLevel::Operator => 2,
        AuthorizationLevel::ReadOnly => 3,
    }
}

/// Whether `level` suffices for an operation that needs `required`.
pub fn level_permits(level: AuthorizationLevel, required: AuthorizationLevel) -> (r: bool)
    ensures
        r == spec_level_permits(level, required),
{
    match (level, required) {
        (AuthorizationLevel::Owner, _) => true,
        (AuthorizationLevel::Manager, AuthorizationLevel::Owner) => false,
        (AuthorizationLevel::Manager, _) => true,
        (AuthorizationLevel::Operator, AuthorizationLevel::Owner) => false,
        (AuthorizationLevel::Operator, AuthorizationLevel::Manager) => false,
        (AuthorizationLevel::Operator, _) => true,
        (AuthorizationLevel::ReadOnly, AuthorizationLevel::ReadOnly) => true,
        (AuthorizationLevel::ReadOnly, _) => false,
    }
}

/// A level permits exactly the operations that need it or a lesser level.
pub proof fn lemma_level_order(level: AuthorizationLevel, required: AuthorizationLevel)
    ensures
        spec_level_permits(level, required) == (level_position(level) <= level_position(required)),
{
}

/// Free credits of a new account.
pub const INITIAL_CREDITS: u64 = 100;

/// Credits an agent beyond the included ones costs, before discount.
pub const ADDITIONAL_AGENT_BASE_COST: u64 = 10;

/// A user account with ownership and authorization information; times are
/// Unix seconds.
#[derive(Debug)]
pub struct Account {
    /// Ethereum-style address derived from the user's public key
    pub address: String,
    /// Optional human-readable name for the account
    pub name: Option<String>,
    /// Instance IDs owned by this account
    pub owned_instances: StrSet,
    /// Agent IDs owned by this account
    pub owned_agents: StrSet,
    /// Model IDs owned by this account
    pub owned_models: StrSet,
    /// Authorization level per instance where this account has access
    pub authorized_instances: StrMap<AuthorizationLevel>,
    /// Subscription information
    pub subscription: Option<SubscriptionInfo>,
    /// Usage tracking information
    pub usage: Option<UsageTracker>,
    /// Available credits for pay-as-you-go usage
    pub credits: u64,
    /// Agent IDs that are currently hired by this account
    pub hired_agents: StrSet,
    /// API keys of this account, by key ID
    pub api_keys: StrMap<ApiKey>,
    /// Creation timestamp
    pub created_at: i64,
    /// Last update timestamp
    pub updated_at: i64,
}

/// The credits an account can spend: those of its subscription when it is
/// active, in trial or past due and grants any, else its pay-as-you-go
/// credits.
pub open spec fn spec_available_credits(a: Account) -> u64 {
    let sub = match a.subscription {
        Some(s) => if s.status == SubscriptionStatus::Active || s.status == SubscriptionStatus::Trial
            || s.status == SubscriptionStatus::PastDue {
            s.inference_credits_per_period
        } else {
            0
        },
        None => 0,
    };
    if sub > 0 { sub } else { a.credits }
}

/// Agents an account may hire within its subscription (one without).
pub open spec fn spec_max_allowed_agents(a: Account) -> u32 {
    match a.subscription {
        Some(s) => s.max_agents,
        None => 1,
    }
}

/// API keys an account may hold: as its tier allows, five without a
/// subscription.
pub open spec fn spec_max_api_keys(a: Account) -> u32 {
    match a.subscription {
        Some(s) => spec_tier_max_api_keys(s.tier),
        None => 5,
    }
}

impl Account {
    /// `self` equals `b` in every field but `updated_at` and those flagged.
    pub open spec fn same_except(&self, b: Account, instances: bool, agents: bool, models: bool,
        authorizations: bool, hired: bool, keys: bool, credits: bool) -> bool
    {
        &&& self.address == b.address
        &&& self.name == b.name
        &&& self.subscription == b.subscription
        &&& self.usage == b.usage
        &&& self.created_at == b.created_at
        &&& !instances ==> self.owned_instances == b.owned_instances
        &&& !agents ==> self.owned_agents == b.owned_agents
        &&& !models ==> self.owned_models == b.owned_models
        &&& !authorizations ==> self.authorized_instances == b.authorized_instances
        &&& !hired ==> self.hired_agents == b.hired_agents
        &&& !keys ==> self.api_keys == b.api_keys
        &&& !credits ==> self.credits == b.credits
    }

    /// `self` was updated from `b` when `changed` (its update time is a
    /// clock reading), and kept `b`'s update time otherwise.
    pub open spec fn stamped(&self, b: Account, changed: bool) -> bool {
        if changed { time_ok(self.updated_at) } else { self.updated_at == b.updated_at }
    }

    /// A new account of `address`, created at `now`, with the free credits
    /// and an empty usage tracker.
    pub open spec fn spec_fresh(&self, address: Seq<char>, now: i64) -> bool {
        &&& self.address@ == address
        &&& self.name is None
        &&& self.owned_instances.spec_set().is_empty()
        &&& self.owned_agents.spec_set().is_empty()
        &&& self.owned_models.spec_set().is_empty()
        &&& forall|k: Seq<char>| #[trigger] self.authorized_instances.spec_get(k) is None
        &&& self.subscription is None
        &&& self.usage matches Some(u) && time_ok(u.current_period_start) && tracker_is_new(u, u.current_period_start)
        &&& self.credits == INITIAL_CREDITS
        &&& self.hired_agents.spec_set().is_empty()
        &&& forall|k: Seq<char>| #[trigger] self.api_keys.spec_get(k) is None
        &&& self.api_keys.spec_len() == 0
        &&& self.created_at == now
        &&& self.updated_at == now
    }

    /// Create a new account with the given address, the free credits and
    /// an empty usage tracker.
    pub fn new(address: String) -> (r: Self)
        ensures
            time_ok(r.created_at),
            r.spec_fresh(address@, r.created_at),
    {
        let now = utc_now_secs();
        Account {
            address,
            name: None,
            owned_instances: StrSet::new(),
            owned_agents: StrSet::new(),
            owned_models: StrSet::new(),
            authorized_instances: StrMap::new(),
            subscription: None,
            usage: Some(UsageTracker::new()),
            credits: INITIAL_CREDITS,
            hired_agents: StrSet::new(),
            api_keys: StrMap::new(),
            created_at: now,
            updated_at: now,
        }
    }

    /// Add an instance to the owned instances.
    pub fn add_owned_instance(&mut self, instance_id: String)
        ensures
            final(self).owned_instances.spec_set() == old(self).owned_instances.spec_set().insert(instance_id@),
            final(self).same_except(*old(self), true, false, false, false, false, false, false),
            final(self).stamped(*old(self), true),
    {
        self.owned_instances.insert(instance_id);
        self.updated_at = utc_now_secs();
    }

    /// Add an agent to the owned agents.
    pub fn add_owned_agent(&mut self, agent_id: String)
        ensures
            final(self).owned_agents.spec_set() == old(self).owned_agents.spec_set().insert(agent_id@),
            final(self).same_except(*old(self), false, true, false, false, false, false, false),
            final(self).stamped(*old(self), true),
    {
        self.owned_agents.insert(agent_id);
        self.updated_at = utc_now_secs();
    }

    /// Remove an agent from the owned agents; true if it was owned.
    pub fn remove_owned_agent(&mut self, agent_id: &str) -> (r: bool)
        ensures
            r == old(self).owned_agents.spec_set().contains(agent_id@),
            final(self).owned_agents.spec_set() == old(self).owned_agents.spec_set().remove(agent_id@),
            final(self).same_except(*old(self), false, true, false, false, false, false, false),
            final(self).stamped(*old(self), r),
    {
        let removed = self.owned_agents.remove(agent_id);
        if removed {
            self.updated_at = utc_now_secs();
        }
        removed
    }

    /// Add a model to the owned models.
    pub fn add_owned_model(&mut self, model_id: String)
        ensures
            final(self).owned_models.spec_set() == old(self).owned_models.spec_set().insert(model_id@),
            final(self).same_except(*old(self), false, false, true, false, false, false, false),
            final(self).stamped(*old(self), true),
    {
        self.owned_models.insert(model_id);
        self.updated_at = utc_now_secs();
    }

    /// Remove a model from the owned models; true if it was owned.
    pub fn remove_owned_model(&mut self, model_id: &str) -> (r: bool)
        ensures
            r == old(self).owned_models.spec_set().contains(model_id@),
            final(self).owned_models.spec_set() == old(self).owned_models.spec_set().remove(model_id@),
            final(self).same_except(*old(self), false, false, true, false, false, false, false),
            final(self).stamped(*old(self), r),
    {
        let removed = self.owned_models.remove(model_id);
        if removed {
            self.updated_at = utc_now_secs();
        }
        removed
    }

    /// Remove an instance from the owned instances; true if it was owned.
    pub fn remove_owned_instance(&mut self, instance_id: &str) -> (r: bool)
        ensures
            r == old(self).owned_instances.spec_set().contains(instance_id@),
            final(self).owned_instances.spec_set() == old(self).owned_instances.spec_set().remove(instance_id@),
            final(self).same_except(*old(self), true, false, false, false, false, false, false),
            final(self).stamped(*old(self), r),
    {
        let removed = self.owned_instances.remove(instance_id);
        if removed {
            self.updated_at = utc_now_secs();
        }
        removed
    }

    /// Add or update an authorization for an instance.
    pub fn add_authorization(&mut self, instance_id: String, level: AuthorizationLevel)
        ensures
            final(self).authorized_instances.spec_get(instance_id@) == Some(level),
            forall|k: Seq<char>| k != instance_id@ ==> #[trigger] final(self).authorized_instances.spec_get(k)
                == old(self).authorized_instances.spec_get(k),
            final(self).same_except(*old(self), false, false, false, true, false, false, false),
            final(self).stamped(*old(self), true),
    {
        self.authorized_instances.insert(instance_id, level);
        self.updated_at = utc_now_secs();
    }

    /// Remove an authorization for an instance, giving back its level.
    pub fn remove_authorization(&mut self, instance_id: &str) -> (r: Option<AuthorizationLevel>)
        ensures
            r == old(self).authorized_instances.spec_get(instance_id@),
            final(self).authorized_instances.spec_get(instance_id@) is None,
            forall|k: Seq<char>| k != instance_id@ ==> #[trigger] final(self).authorized_instances.spec_get(k)
                == old(self).authorized_instances.spec_get(k),
            final(self).same_except(*old(self), false, false, false, true, false, false, false),
            final(self).stamped(*old(self), r is Some),
    {
        let removed = self.authorized_instances.remove(instance_id);
        if removed.is_some() {
            self.updated_at = utc_now_secs();
        }
        removed
    }

    /// The authorization level of the account for an instance: Owner for
    /// an owned instance, else the level granted, if any.
    pub open spec fn spec_authorization_level(&self, instance_id: Seq<char>) -> Option<AuthorizationLevel> {
        if self.owned_instances.spec_set().contains(instance_id) {
            Some(AuthorizationLevel::Owner)
        } else {
            self.authorized_instances.spec_get(instance_id)
        }
    }

    /// Get the authorization level for an instance.
    pub fn get_authorization_level(&self, instance_id: &str) -> (r: Option<AuthorizationLevel>)
        ensures
            r == self.spec_authorization_level(instance_id@),
    {
        if self.owned_instances.contains(instance_id) {
            return Some(AuthorizationLevel::Owner);
        }
        match self.authorized_instances.get(instance_id) {
            Some(l) => Some(*l),
            None => None,
        }
    }

    /// Whether the account may perform an operation on an instance that
    /// needs `required_level`.
    pub fn is_authorized(&self, instance_id: &str, required_level: AuthorizationLevel) -> (r: bool)
        ensures
            r == match self.spec_authorization_level(instance_id@) {
                Some(l) => spec_level_permits(l, required_level),
                None => false,
            },
    {
        match self.get_authorization_level(instance_id) {
            Some(level) => level_permits(level, required_level),
            None => false,
        }
    }

    /// Get available credits (either from subscription or pay-as-you-go).
    pub fn available_credits(&self) -> (r: u64)
        ensures
            r == spec_available_credits(*self),
    {
        let subscription_credits = match &self.subscription {
            Some(sub) => match sub.status {
                SubscriptionStatus::Active | SubscriptionStatus::Trial | SubscriptionStatus::PastDue =>
                    sub.inference_credits_per_period,
                _ => 0,
            },
            None => 0,
        };
        if subscription_credits > 0 { subscription_credits } else { self.credits }
    }

    /// Count the number of hired agents.
    pub fn hired_agent_count(&self) -> (r: usize)
        ensures
            r == self.hired_agents.spec_set().len(),
    {
        self.hired_agents.len()
    }

    /// Add a hired agent.
    pub fn hire_agent(&mut self, agent_id: String)
        ensures
            final(self).hired_agents.spec_set() == old(self).hired_agents.spec_set().insert(agent_id@),
            final(self).same_except(*old(self), false, false, false, false, true, false, false),
            final(self).stamped(*old(self), true),
    {
        self.hired_agents.insert(agent_id);
        self.updated_at = utc_now_secs();
    }

    /// Remove a hired agent; true if it was hired.
    pub fn fire_agent(&mut self, agent_id: &str) -> (r: bool)
        ensures
            r == old(self).hired_agents.spec_set().contains(agent_id@),
            final(self).hired_agents.spec_set() == old(self).hired_agents.spec_set().remove(agent_id@),
            final(self).same_except(*old(self), false, false, false, false, true, false, false),
            final(self).stamped(*old(self), r),
    {
        let removed = self.hired_agents.remove(agent_id);
        if removed {
            self.updated_at = utc_now_secs();
        }
        removed
    }

    /// Add credits to the account, saturating at the largest balance.
    pub fn add_credits(&mut self, amount: u64)
        ensures
            final(self).credits == if old(self).credits + amount > u64::MAX { u64::MAX as int } else { old(self).credits + amount },
            final(self).same_except(*old(self), false, false, false, false, false, false, true),
            final(self).stamped(*old(self), true),
    {
        self.credits = self.credits.saturating_add(amount);
        self.updated_at = utc_now_secs();
    }

    /// Deduct credits from the account if it holds enough; true if it did.
    pub fn deduct_credits(&mut self, amount: u64) -> (r: bool)
        ensures
            r == (old(self).credits >= amount),
            final(self).credits == if r { old(self).credits - amount } else { old(self).credits as int },
            final(self).same_except(*old(self), false, false, false, false, false, false, true),
            final(self).stamped(*old(self), r),
    {
        if self.credits >= amount {
            self.credits = self.credits - amount;
            self.updated_at = utc_now_secs();
            true
        } else {
            false
        }
    }

    /// Get the usage tracker, starting an empty one (now) if there is none.
    pub fn usage_tracker(&mut self) -> (r: &mut UsageTracker)
        ensures
            match old(self).usage {
                Some(u) => *r == u,
                None => time_ok(r.current_period_start) && tracker_is_new(*r, r.current_period_start),
            },
            final(self).usage == Some(*final(r)),
            final(self).address == old(self).address,
            final(self).name == old(self).name,
            final(self).owned_instances == old(self).owned_instances,
            final(self).owned_agents == old(self).owned_agents,
            final(self).owned_models == old(self).owned_models,
            final(self).authorized_instances == old(self).authorized_instances,
            final(self).subscription == old(self).subscription,
            final(self).credits == old(self).credits,
            final(self).hired_agents == old(self).hired_agents,
            final(self).api_keys == old(self).api_keys,
            final(self).created_at == old(self).created_at,
            final(self).updated_at == old(self).updated_at,
    {
        if self.usage.is_none() {
            self.usage = Some(UsageTracker::new());
        }
        self.usage.as_mut().unwrap()
    }

    /// Get the usage tracker, if any.
    pub fn get_usage(&self) -> (r: Option<&UsageTracker>)
        ensures
            match r {
                Some(u) => self.usage == Some(*u),
                None => self.usage is None,
            },
    {
        match &self.usage {
            Some(u) => Some(u),
            None => None,
        }
    }

    /// Get maximum allowed agents based on subscription or free tier.
    pub fn max_allowed_agents(&self) -> (r: u32)
        ensures
            r == spec_max_allowed_agents(*self),
    {
        match &self.subscription {
            Some(sub) => sub.max_agents,
            None => 1,
        }
    }

    /// Check if the account can hire an additional agent: below its limit,
    /// or holding the credits for one more.
    pub fn can_hire_additional_agent(&self) -> (r: bool)
        ensures
            r == ((self.hired_agents.spec_set().len() as u32) < spec_max_allowed_agents(*self)
                || self.credits >= ADDITIONAL_AGENT_BASE_COST),
    {
        let current = self.hired_agent_count() as u32;
        let max_allowed = self.max_allowed_agents();
        current < max_allowed || self.credits >= ADDITIONAL_AGENT_BASE_COST
    }

    /// Get the maximum number of API keys allowed for this account.
    pub fn max_allowed_api_keys(&self) -> (r: u32)
        ensures
            r == spec_max_api_keys(*self),
    {
        match &self.subscription {
            Some(subscription) => subscription.tier.quota().max_api_keys,
            None => 5,
        }
    }

    /// Check if an agent is owned by this account.
    pub fn owns_agent(&self, agent_id: &str) -> (r: bool)
        ensures
            r == self.owned_agents.spec_set().contains(agent_id@),
    {
        self.owned_agents.contains(agent_id)
    }

    /// Get the count of owned agents.
    pub fn owned_agent_count(&self) -> (r: usize)
        ensures
            r == self.owned_agents.spec_set().len(),
    {
        self.owned_agents.len()
    }
}

/// A premium model: its name mentions `premium`, or its tier (the part
/// before the first `_`) is `enterprise` or `expert`.
pub open spec fn is_premium_model(model: Seq<char>) -> bool {
    seq_contains(model, "premium"@) || split_spec(model, '_')[0] == "enterprise"@
        || split_spec(model, '_')[0] == "expert"@
}

/// The number of premium models among `keys`.
pub open spec fn premium_count(keys: Seq<Seq<char>>) -> nat
    decreases keys.len(),
{
    if keys.len() == 0 {
        0
    } else {
        premium_count(keys.drop_last()) + if is_premium_model(keys.last()) { 1nat } else { 0nat }
    }
}

proof fn lemma_premium_count_bound(keys: Seq<Seq<char>>)
    ensures
        premium_count(keys) <= keys.len(),
    decreases keys.len(),
{
    if keys.len() > 0 {
        lemma_premium_count_bound(keys.drop_last());
    }
}

/// Whether `model` is a premium model.
fn premium_model(model: &str) -> (r: bool)
    ensures
        r == is_premium_model(model@),
{
    let tier = first_piece(model, '_');
    contains(model, "premium") || str_eq(tier.as_str(), "enterprise") || str_eq(tier.as_str(), "expert")
}

/// Whether `names` holds `name`.
fn holds_name(names: &Vec<String>, name: &str) -> (r: bool)
    ensures
        r == exists|i: int| 0 <= i < names@.len() && #[trigger] names@[i]@ == name@,
{
    let mut i: usize = 0;
    while i < names.len()
        invariant
            i <= names@.len(),
            forall|j: int| 0 <= j < i ==> #[trigger] names@[j]@ != name@,
        decreases names@.len() - i,
    {
        if str_eq(names[i].as_str(), name) {
            return true;
        }
        i += 1;
    }
    false
}

/// The tokens used on the day of `now` according to `u`.
pub open spec fn spec_today_tokens(u: UsageTracker, now: i64) -> u64 {
    match u.daily_usage.spec_get(day_key_of(now).unwrap()) {
        Some(d) => d.total_tokens,
        None => 0,
    }
}

/// Whether an account may use `input` and `output` tokens of `model` at
/// `now`: it must hold the credits they cost (any credit at all without a
/// usage tracker); with a subscription, the model's tier must be included,
/// a premium model must fit the tier's premium model limit, and the day's
/// tokens must stay within the tier's daily limit.
pub open spec fn spec_can_use_tokens(a: Account, model: Seq<char>, input: u64, output: u64, now: i64) -> bool {
    match a.usage {
        None => spec_available_credits(a) > 0,
        Some(u) => if spec_available_credits(a) < spec_token_cost(input + output) {
            false
        } else {
            match a.subscription {
                None => true,
                Some(s) => {
                    let tier = split_spec(model, '_')[0];
                    if !spec_tier_model_access(s.tier).contains(tier) {
                        false
                    } else if is_premium_model(model)
                        && (premium_count(u.model_usage.spec_keys()) as u32) >= spec_tier_max_premium_models(s.tier) {
                        false
                    } else {
                        match spec_tier_daily_token_limit(s.tier) {
                            Some(limit) => spec_today_tokens(u, now) + input + output <= limit,
                            None => true,
                        }
                    }
                },
            }
        },
    }
}

/// An agent that only tiers with premium access may hire.
pub open spec fn is_premium_agent(agent: Seq<char>) -> bool {
    seq_contains(agent, "premium_"@) || seq_contains(agent, "expert_"@)
}

/// The most agents an account of a tier may hire, extra ones included.
pub open spec fn tier_agent_cap(t: SubscriptionTier) -> u32 {
    match t {
        SubscriptionTier::Free => 2,
        SubscriptionTier::Pro => 5,
        SubscriptionTier::ProPlus => 10,
        SubscriptionTier::Power => 20,
        SubscriptionTier::PowerPlus => 50,
    }
}

/// The credits an agent beyond the included ones costs: the base cost less
/// the tier's discount (a percentage, rounded up to whole credits).
pub open spec fn spec_additional_agent_cost(sub: Option<SubscriptionInfo>) -> u64 {
    match sub {
        Some(s) => {
            let d = spec_tier_agent_discount(s.tier);
            if d > 0 {
                let discount = (ADDITIONAL_AGENT_BASE_COST * d + 99) / 100;
                if discount >= ADDITIONAL_AGENT_BASE_COST { 0 } else { (ADDITIONAL_AGENT_BASE_COST - discount) as u64 }
            } else {
                ADDITIONAL_AGENT_BASE_COST
            }
        },
        None => ADDITIONAL_AGENT_BASE_COST,
    }
}

/// Whether an account may hire `agent`: not if it already has; never a
/// premium agent without a subscription whose tier gives premium access;
/// below its limit, any other agent; at or over it, if it can pay for one
/// more agent within the tier's overall cap.
pub open spec fn spec_can_hire_agent(a: Account, agent: Seq<char>) -> bool {
    let current = a.hired_agents.spec_set().len() as u32;
    if a.hired_agents.spec_set().contains(agent) {
        false
    } else if current < spec_max_allowed_agents(a) {
        !is_premium_agent(agent) || match a.subscription {
            Some(s) => spec_tier_premium_agents(s.tier),
            None => false,
        }
    } else if spec_available_credits(a) < spec_additional_agent_cost(a.subscription) {
        false
    } else {
        match a.subscription {
            Some(s) => !(is_premium_agent(agent) && !spec_tier_premium_agents(s.tier)) && current < tier_agent_cap(s.tier),
            None => !is_premium_agent(agent),
        }
    }
}

impl Account {
    /// Get total token usage for all time (zero without a usage tracker).
    pub fn total_token_usage(&self) -> (r: u64)
        requires
            self.usage matches Some(u) ==> usage_total(u.model_usage.spec_entries()) <= u64::MAX,
        ensures
            r == match self.usage {
                Some(u) => usage_total(u.model_usage.spec_entries()),
                None => 0,
            },
    {
        match &self.usage {
            Some(usage) => usage.total_tokens_consumed(),
            None => 0,
        }
    }

    /// Get token usage for the current billing period (zero without a usage
    /// tracker).
    pub fn current_period_token_usage(&self) -> (r: u64)
        ensures
            r == match self.usage {
                Some(u) => match u.spec_current() {
                    Some(p) => p.tokens_consumed,
                    None => 0,
                },
                None => 0,
            },
    {
        match &self.usage {
            Some(usage) => usage.current_period_tokens(),
            None => 0,
        }
    }

    /// The tokens used on the day of `now` (zero without a usage tracker).
    pub fn today_token_usage_at(&self, now: i64) -> (r: u64)
        requires
            time_ok(now),
        ensures
            r == match self.usage {
                Some(u) => spec_today_tokens(u, now),
                None => 0,
            },
    {
        match &self.usage {
            Some(usage) => usage.today_usage_at(now).total_tokens,
            None => 0,
        }
    }

    /// Get today's token usage.
    pub fn today_token_usage(&self) -> (r: u64)
        ensures
            exists|now: i64| time_ok(now) && r == match self.usage {
                Some(u) => spec_today_tokens(u, now),
                None => 0,
            },
    {
        self.today_token_usage_at(utc_now_secs())
    }

    /// The number of premium models the account has used.
    fn premium_models_used(&self) -> (r: u32)
        ensures
            r == match self.usage {
                Some(u) => premium_count(u.model_usage.spec_keys()) as u32,
                None => 0,
            },
    {
        match &self.usage {
            Some(u) => {
                let entries = u.model_usage.entries();
                let ghost keys = u.model_usage.spec_keys();
                let mut count: usize = 0;
                let mut i: usize = 0;
                while i < entries.len()
                    invariant
                        entries@ == u.model_usage.spec_entries(),
                        keys == u.model_usage.spec_keys(),
                        keys.len() == entries@.len(),
                        i <= entries@.len(),
                        count == premium_count(keys.take(i as int)),
                        count <= i,
                    decreases entries@.len() - i,
                {
                    proof {
                        assert(keys.take(i + 1).drop_last() =~= keys.take(i as int));
                        assert(keys[i as int] == entries@[i as int].0@);
                    }
                    if premium_model(entries[i].0.as_str()) {
                        count = count + 1;
                    }
                    i += 1;
                }
                proof {
                    assert(keys.take(i as int) =~= keys);
                }
                count as u32
            },
            None => 0,
        }
    }

    /// Check if the account can use `input_tokens` and `output_tokens` of
    /// `model_id` at `now`.
    pub fn can_use_tokens_at(&self, model_id: &str, input_tokens: u64, output_tokens: u64, now: i64) -> (r: bool)
        requires
            time_ok(now),
            self.usage is Some ==> input_tokens + output_tokens <= u64::MAX,
        ensures
            r == spec_can_use_tokens(*self, model_id@, input_tokens, output_tokens, now),
    {
        let usage = match &self.usage {
            Some(tracker) => tracker,
            None => {
                return self.available_credits() > 0;
            },
        };
        let required_credits = usage.estimate_token_cost(model_id, input_tokens, output_tokens);
        if self.available_credits() < required_credits {
            return false;
        }
        if let Some(subscription) = &self.subscription {
            let quota = subscription.quota();
            let model_tier = first_piece(model_id, '_');
            if !holds_name(&quota.model_access, model_tier.as_str()) {
                proof {
                    assert(!spec_tier_model_access(subscription.tier).contains(model_tier@)) by {
                        if spec_tier_model_access(subscription.tier).contains(model_tier@) {
                            let j = choose|j: int| 0 <= j < spec_tier_model_access(subscription.tier).len()
                                && spec_tier_model_access(subscription.tier)[j] == model_tier@;
                            assert(quota.model_access@[j]@ == model_tier@);
                        }
                    }
                }
                return false;
            }
            proof {
                let i = choose|i: int| 0 <= i < quota.model_access@.len() && #[trigger] quota.model_access@[i]@ == model_tier@;
                assert(spec_tier_model_access(subscription.tier)[i] == model_tier@);
            }
            let is_premium = premium_model(model_id);
            let premium_count = self.premium_models_used();
            if is_premium && premium_count >= quota.max_premium_models {
                return false;
            }
            if let Some(daily_limit) = quota.daily_token_limit {
                let today_usage = usage.today_usage_at(now).total_tokens;
                match today_usage.checked_add(input_tokens + output_tokens) {
                    Some(total) => {
                        if total > daily_limit {
                            return false;
                        }
                    },
                    None => {
                        return false;
                    },
                }
            }
        }
        true
    }

    /// Check if the account can use the specified tokens for the given model
    /// now: it has the credits for them and stays within its subscription's
    /// model access, premium model limit and daily token limit.
    pub fn can_use_tokens(&self, model_id: &str, input_tokens: u64, output_tokens: u64) -> (r: bool)
        requires
            self.usage is Some ==> input_tokens + output_tokens <= u64::MAX,
        ensures
            exists|now: i64| time_ok(now) && r == spec_can_use_tokens(*self, model_id@, input_tokens, output_tokens, now),
    {
        let now = utc_now_secs();
        self.can_use_tokens_at(model_id, input_tokens, output_tokens, now)
    }

    /// Check if the account can hire a specific agent.
    pub fn can_hire_agent(&self, agent_id: &str) -> (r: bool)
        ensures
            r == spec_can_hire_agent(*self, agent_id@),
    {
        if self.hired_agents.contains(agent_id) {
            return false;
        }
        let current_agent_count = self.hired_agent_count() as u32;
        let max_allowed = self.max_allowed_agents();
        let is_premium = contains(agent_id, "premium_") || contains(agent_id, "expert_");
        if current_agent_count < max_allowed {
            if is_premium {
                match &self.subscription {
                    Some(sub) => {
                        if !sub.tier.quota().premium_agent_access {
                            return false;
                        }
                    },
                    None => {
                        return false;
                    },
                }
            }
            return true;
        }
        let additional_agent_cost: u64 = match &self.subscription {
            Some(sub) => {
                let d = sub.tier.quota().additional_agent_discount as u64;
                if d > 0 {
                    let discount = (ADDITIONAL_AGENT_BASE_COST * d + 99) / 100;
                    ADDITIONAL_AGENT_BASE_COST.saturating_sub(discount)
                } else {
                    ADDITIONAL_AGENT_BASE_COST
                }
            },
            None => ADDITIONAL_AGENT_BASE_COST,
        };
        if self.available_credits() < additional_agent_cost {
            return false;
        }
        if self.subscription.is_none() && is_premium {
            return false;
        }
        if let Some(sub) = &self.subscription {
            if is_premium && !sub.tier.quota().premium_agent_access {
                return false;
            }
            let cap: u32 = match sub.tier {
                SubscriptionTier::Free => 2,
                SubscriptionTier::Pro => 5,
                SubscriptionTier::ProPlus => 10,
                SubscriptionTier::Power => 20,
                SubscriptionTier::PowerPlus => 50,
            };
            if current_agent_count >= cap {
                return false;
            }
        }
        true
    }
}

/// The message of a refused key: `API key limit reached ({count}/{max})`.
pub open spec fn spec_key_limit_message(count: u32, max: u32) -> Seq<char> {
    "API key limit reached ("@ + decimal(count as nat) + "/"@ + decimal(max as nat) + ")"@
}

/// Position `i` of `s` holds the first key whose stored secret is that of
/// `secret`.
pub open spec fn is_first_match(s: Seq<(String, ApiKey)>, i: int, secret: Seq<char>) -> bool {
    &&& 0 <= i < s.len()
    &&& s[i].1.hashed_secret@ == spec_hashed(secret)
    &&& forall|j: int| 0 <= j < i ==> (#[trigger] s[j]).1.hashed_secret@ != spec_hashed(secret)
}

/// The key of `a` found by the full secret `secret`: none unless the secret
/// holds `_`; else the first key, in order of key ID, whose stored secret
/// matches.
pub open spec fn spec_key_by_secret(a: Account, secret: Seq<char>) -> Option<ApiKey> {
    let s = a.api_keys.spec_entries();
    if secret.contains('_') && exists|i: int| is_first_match(s, i, secret) {
        Some(s[choose|i: int| is_first_match(s, i, secret)].1)
    } else {
        None
    }
}

/// The keys that `s` refers to, in order.
pub open spec fn deref_keys(s: Seq<&ApiKey>) -> Seq<ApiKey> {
    s.map_values(|k: &ApiKey| *k)
}

/// The keys of `s` in order.
pub open spec fn key_values(s: Seq<(String, ApiKey)>) -> Seq<ApiKey> {
    s.map_values(|e: (String, ApiKey)| e.1)
}

impl Account {
    /// Add a new API key to the account, filed under its ID, unless the
    /// account already holds as many keys as it may.
    pub fn add_api_key(&mut self, api_key: ApiKey) -> (r: Result<(), String>)
        ensures
            old(self).api_keys.spec_len() as u32 >= spec_max_api_keys(*old(self)) ==> {
                &&& r matches Err(m) && m@ == spec_key_limit_message(old(self).api_keys.spec_len() as u32, spec_max_api_keys(*old(self)))
                &&& *final(self) == *old(self)
            },
            (old(self).api_keys.spec_len() as u32) < spec_max_api_keys(*old(self)) ==> {
                &&& r is Ok
                &&& final(self).api_keys.spec_get(api_key.id@) == Some(api_key)
                &&& forall|k: Seq<char>| k != api_key.id@ ==> #[trigger] final(self).api_keys.spec_get(k)
                    == old(self).api_keys.spec_get(k)
                &&& final(self).same_except(*old(self), false, false, false, false, false, true, false)
                &&& final(self).stamped(*old(self), true)
            },
    {
        let max_allowed = self.max_allowed_api_keys();
        let current_count = self.api_keys.len() as u32;
        if current_count >= max_allowed {
            let a = u64_to_decimal(current_count as u64);
            let b = concat("API key limit reached (", a.as_str());
            let c = concat(b.as_str(), "/");
            let d = u64_to_decimal(max_allowed as u64);
            let e = concat(c.as_str(), d.as_str());
            return Err(concat(e.as_str(), ")"));
        }
        let id = api_key.id.clone();
        self.api_keys.insert(id, api_key);
        self.updated_at = utc_now_secs();
        Ok(())
    }

    /// Remove an API key from the account; true if it was there.
    pub fn remove_api_key(&mut self, key_id: &str) -> (r: bool)
        ensures
            r == old(self).api_keys.spec_get(key_id@) is Some,
            final(self).api_keys.spec_get(key_id@) is None,
            forall|k: Seq<char>| k != key_id@ ==> #[trigger] final(self).api_keys.spec_get(k) == old(self).api_keys.spec_get(k),
            final(self).same_except(*old(self), false, false, false, false, false, true, false),
            final(self).stamped(*old(self), r),
    {
        let removed = self.api_keys.remove(key_id).is_some();
        if removed {
            self.updated_at = utc_now_secs();
        }
        removed
    }

    /// Get an API key by ID.
    pub fn get_api_key(&self, key_id: &str) -> (r: Option<&ApiKey>)
        ensures
            match r {
                Some(k) => self.api_keys.spec_get(key_id@) == Some(*k),
                None => self.api_keys.spec_get(key_id@) is None,
            },
    {
        self.api_keys.get(key_id)
    }

    /// Get an API key by its full secret (prefix, `_`, rest): the first key,
    /// in order of key ID, whose stored secret matches; none for a secret
    /// without `_`.
    pub fn get_api_key_by_secret(&self, full_key: &str) -> (r: Option<&ApiKey>)
        ensures
            match r {
                Some(k) => spec_key_by_secret(*self, full_key@) == Some(*k),
                None => spec_key_by_secret(*self, full_key@) is None,
            },
    {
        if !crate::text::has_char(full_key, '_') {
            return None;
        }
        let entries = self.api_keys.entries();
        let mut i: usize = 0;
        while i < entries.len()
            invariant
                entries@ == self.api_keys.spec_entries(),
                i <= entries@.len(),
                full_key@.contains('_'),
                forall|j: int| 0 <= j < i ==> (#[trigger] self.api_keys.spec_entries()[j]).1.hashed_secret@
                    != spec_hashed(full_key@),
            decreases entries@.len() - i,
        {
            if entries[i].1.verify_secret(full_key) {
                let k = &entries[i].1;
                proof {
                    let s = self.api_keys.spec_entries();
                    assert(is_first_match(s, i as int, full_key@));
                    let c = choose|c: int| is_first_match(s, c, full_key@);
                    if c < i {
                        assert(s[c].1.hashed_secret@ != spec_hashed(full_key@));
                    } else if c > i {
                        assert(s[i as int].1.hashed_secret@ != spec_hashed(full_key@));
                    }
                }
                return Some(k);
            }
            i += 1;
        }
        None
    }

    /// The keys that may be used at `now`, in order of key ID.
    pub fn list_active_api_keys_at(&self, now: i64) -> (r: Vec<&ApiKey>)
        ensures
            deref_keys(r@) == key_values(self.api_keys.spec_entries()).filter(|k: ApiKey| spec_key_valid_at(k, now)),
    {
        let entries = self.api_keys.entries();
        let ghost all = key_values(entries@);
        let mut out: Vec<&ApiKey> = Vec::new();
        let mut i: usize = 0;
        while i < entries.len()
            invariant
                entries@ == self.api_keys.spec_entries(),
                all == key_values(entries@),
                i <= entries@.len(),
                deref_keys(out@) == all.take(i as int).filter(|k: ApiKey| spec_key_valid_at(k, now)),
            decreases entries@.len() - i,
        {
            proof {
                assert(all.take(i + 1).drop_last() =~= all.take(i as int));
                reveal(Seq::filter);
            }
            if entries[i].1.is_valid_at(now) {
                out.push(&entries[i].1);
                proof {
                    assert(deref_keys(out@) =~= all.take(i as int).filter(|k: ApiKey| spec_key_valid_at(k, now)).push(all[i as int]));
                }
            } else {
                proof {
                    assert(deref_keys(out@) =~= all.take(i as int).filter(|k: ApiKey| spec_key_valid_at(k, now)));
                }
            }
            i += 1;
        }
        proof {
            assert(all.take(i as int) =~= all);
        }
        out
    }

    /// List the API keys that may be used now, in order of key ID.
    pub fn list_active_api_keys(&self) -> (r: Vec<&ApiKey>)
        ensures
            exists|now: i64| time_ok(now) && deref_keys(r@)
                == key_values(self.api_keys.spec_entries()).filter(|k: ApiKey| spec_key_valid_at(k, now)),
    {
        self.list_active_api_keys_at(utc_now_secs())
    }

    /// List all API keys (including revoked and expired), in order of key ID.
    pub fn list_all_api_keys(&self) -> (r: Vec<&ApiKey>)
        ensures
            r@.len() == self.api_keys.spec_len(),
            forall|j: int| 0 <= j < r@.len() ==> *#[trigger] r@[j] == self.api_keys.spec_entries()[j].1,
    {
        let entries = self.api_keys.entries();
        let mut out: Vec<&ApiKey> = Vec::new();
        let mut i: usize = 0;
        while i < entries.len()
            invariant
                entries@ == self.api_keys.spec_entries(),
                i <= entries@.len(),
                out@.len() == i,
                forall|j: int| 0 <= j < i ==> *#[trigger] out@[j] == entries@[j].1,
            decreases entries@.len() - i,
        {
            out.push(&entries[i].1);
            i += 1;
        }
        out
    }

    /// Revoke an API key; true if the account has it. Only its status changes.
    pub fn revoke_api_key(&mut self, key_id: &str) -> (r: bool)
        ensures
            r == old(self).api_keys.spec_get(key_id@) is Some,
            r ==> final(self).api_keys.spec_get(key_id@) is Some && {
                let n = final(self).api_keys.spec_get(key_id@).unwrap();
                let o = old(self).api_keys.spec_get(key_id@).unwrap();
                &&& n.status == ApiKeyStatus::Revoked
                &&& n.id == o.id && n.name == o.name && n.account_id == o.account_id
                &&& n.hashed_secret == o.hashed_secret && n.scope == o.scope && n.created_at == o.created_at
                &&& n.expires_at == o.expires_at && n.description == o.description
            },
            forall|k: Seq<char>| k != key_id@ ==> #[trigger] final(self).api_keys.spec_get(k) == old(self).api_keys.spec_get(k),
            !r ==> final(self).api_keys.spec_get(key_id@) is None,
            final(self).same_except(*old(self), false, false, false, false, false, true, false),
            final(self).stamped(*old(self), r),
    {
        match self.api_keys.remove(key_id) {
            Some(mut key) => {
                key.revoke();
                self.api_keys.insert(crate::text::owned(key_id), key);
                self.updated_at = utc_now_secs();
                true
            },
            None => false,
        }
    }
}

/// Whether the account `address` may perform an operation needing
/// `required` on an instance; `account` is what the store holds for that
/// address.
pub fn verify_authorization(account: Option<&Account>, instance_id: &str, required_level: AuthorizationLevel) -> (r: bool)
    ensures
        r == match account {
            Some(a) => match a.spec_authorization_level(instance_id@) {
                Some(l) => spec_level_permits(l, required_level),
                None => false,
            },
            None => false,
        },
{
    match account {
        Some(a) => a.is_authorized(instance_id, required_level),
        None => false,
    }
}


/// An agent that is hired cannot be hired again, and a hire or a firing
/// leaves the credits the account can spend as they were.
pub proof fn lemma_hire_rules(before: Account, after: Account, agent: Seq<char>)
    requires
        after.same_except(before, false, false, false, false, true, false, false),
        after.hired_agents.spec_set().contains(agent),
    ensures
        !spec_can_hire_agent(after, agent),
        spec_available_credits(after) == spec_available_credits(before),
{
}

/// The credits an account can spend: the period credits of a subscription
/// that is Active, Trial or PastDue, when it grants any; otherwise (no
/// subscription, another status, or no period credits) the pay-as-you-go
/// credits.
pub proof fn lemma_available_credits_source(a: Account)
    ensures
        match a.subscription {
            Some(s) => if (s.status == SubscriptionStatus::Active || s.status == SubscriptionStatus::Trial
                || s.status == SubscriptionStatus::PastDue) && s.inference_credits_per_period > 0 {
                spec_available_credits(a) == s.inference_credits_per_period
            } else {
                spec_available_credits(a) == a.credits
            },
            None => spec_available_credits(a) == a.credits,
        },
{
}

/// A premium agent (its ID contains `premium_` or `expert_`) can be hired
/// only by an account whose subscription tier has premium agent access,
/// which the Free tier lacks, however many agents it has hired.
pub proof fn lemma_premium_agent_needs_premium_tier(a: Account, agent: Seq<char>)
    requires
        seq_contains(agent, "premium_"@) || seq_contains(agent, "expert_"@),
    ensures
        spec_can_hire_agent(a, agent) ==> match a.subscription {
            Some(s) => s.tier != SubscriptionTier::Free,
            None => false,
        },
{
}

} // verus!
