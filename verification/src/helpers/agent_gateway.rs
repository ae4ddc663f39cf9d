//! The decisions of the task gateway: who may run an agent's task, where
//! the agent listens, and how the agent's stream reports its usage.

use vstd::prelude::*;
use crate::accounts::Account;
use crate::billing::SubscriptionStatus;
use crate::kv::StringMap;
use crate::text::{
    ascii_lower, concat, eq_ignore_ascii_case, owned, parse_u64, parse_unsigned, seq_starts_with, starts_with,
    suffix_from,
};

verus! {

/// The path of the task endpoint of an agent.
pub open spec fn spec_run_task_path(agent_id: Seq<char>) -> Seq<char> {
    "/agents/"@ + agent_id + "/run_task"@
}

/// The path of the task endpoint of an agent.
pub fn run_task_path(agent_id: &str) -> (r: String)
    ensures
        r@ == spec_run_task_path(agent_id@),
{
    let a = concat("/agents/", agent_id);
    concat(a.as_str(), "/run_task")
}

/// The least credits an account without a current subscription needs.
pub const MINIMUM_OPERATIONAL_CREDITS: u64 = 1;

/// Why a caller may not run an agent's task (status 402).
pub open spec fn spec_task_refusal(a: Account, agent_is_private: bool, agent_owner: Seq<char>, caller: Seq<char>,
    agent_id: Seq<char>) -> Option<Seq<char>>
{
    let current = match a.subscription {
        Some(s) => s.status == SubscriptionStatus::Active || s.status == SubscriptionStatus::Trial
            || s.status == SubscriptionStatus::PastDue,
        None => false,
    };
    if a.credits < MINIMUM_OPERATIONAL_CREDITS && !current {
        Some("Account has insufficient credits and no active/trialing subscription."@)
    } else if agent_is_private && ascii_lower(agent_owner) != ascii_lower(caller) {
        Some("Agent '"@ + agent_id + "' is private and you are not the owner or authorized."@)
    } else {
        None
    }
}

/// Decides whether `caller` may run a task of the agent `agent_id`: the
/// account needs a credit or a current subscription, and a private agent
/// runs only for its owner.
pub fn task_eligibility(account: &Account, agent_is_private: bool, agent_owner: &str, caller: &str, agent_id: &str) -> (r: Option<String>)
    ensures
        crate::clock::opt_string_view(r) == spec_task_refusal(*account, agent_is_private, agent_owner@, caller@, agent_id@),
{
    let current = match &account.subscription {
        Some(s) => match s.status {
            SubscriptionStatus::Active | SubscriptionStatus::Trial | SubscriptionStatus::PastDue => true,
            _ => false,
        },
        None => false,
    };
    if account.credits < MINIMUM_OPERATIONAL_CREDITS && !current {
        return Some(owned("Account has insufficient credits and no active/trialing subscription."));
    }
    if agent_is_private && !eq_ignore_ascii_case(agent_owner, caller) {
        let a = concat("Agent '", agent_id);
        return Some(concat(a.as_str(), "' is private and you are not the owner or authorized."));
    }
    None
}

/// Reads a `u16` written in decimal, as `u16::from_str` does.
pub fn parse_u16(s: &str) -> (r: Option<u16>)
    ensures
        match r {
            Some(v) => parse_unsigned(s@, 65535) == Some(v as nat),
            None => parse_unsigned(s@, 65535) is None,
        },
{
    match parse_u64(s) {
        Some(v) => if v <= 65535 { Some(v as u16) } else { None },
        None => None,
    }
}

/// The port an agent's task endpoint listens on by default.
pub const DEFAULT_TASK_PORT: u16 = 8000;

/// Where an agent's task endpoint is, from its metadata: the path
/// (`task_endpoint_path`, else `/default_task`), the port
/// (`task_endpoint_port` if it is a port number, else 8000), and the build
/// that runs it (`build_id`, else the agent's ID).
pub fn task_endpoint(metadata: &StringMap, agent_id: &str) -> (r: (String, u16, String))
    ensures
        r.0@ == (if metadata@.contains_key("task_endpoint_path"@) { metadata@["task_endpoint_path"@] } else { "/default_task"@ }),
        r.1 == (if metadata@.contains_key("task_endpoint_port"@) {
            match parse_unsigned(metadata@["task_endpoint_port"@], 65535) {
                Some(p) => p as u16,
                None => DEFAULT_TASK_PORT,
            }
        } else {
            DEFAULT_TASK_PORT
        }),
        r.2@ == (if metadata@.contains_key("build_id"@) { metadata@["build_id"@] } else { agent_id@ }),
{
    let path = match metadata.get("task_endpoint_path") {
        Some(p) => owned(p),
        None => owned("/default_task"),
    };
    let port = match metadata.get("task_endpoint_port") {
        Some(p) => match parse_u16(p) {
            Some(n) => n,
            None => DEFAULT_TASK_PORT,
        },
        None => DEFAULT_TASK_PORT,
    };
    let build = match metadata.get("build_id") {
        Some(b) => owned(b),
        None => owned(agent_id),
    };
    (path, port, build)
}

/// The marker that starts the chunk in which an agent reports its usage.
pub const USAGE_MARKER: &'static str = "FINAL_USAGE_INFO:";

/// `s` without every leading repetition of `p` (nonempty), as
/// `str::trim_start_matches` gives it.
pub open spec fn trim_prefixes(s: Seq<char>, p: Seq<char>) -> Seq<char>
    decreases s.len(),
{
    if p.len() > 0 && seq_starts_with(s, p) {
        trim_prefixes(s.subrange(p.len() as int, s.len() as int), p)
    } else {
        s
    }
}

/// The usage report that a chunk of an agent's stream carries: none unless
/// it starts with the marker; else the chunk without its leading markers.
pub fn usage_payload(content: &str) -> (r: Option<String>)
    ensures
        match r {
            Some(u) => seq_starts_with(content@, USAGE_MARKER@) && u@ == trim_prefixes(content@, USAGE_MARKER@),
            None => !seq_starts_with(content@, USAGE_MARKER@),
        },
{
    if !starts_with(content, USAGE_MARKER) {
        return None;
    }
    proof {
        reveal_strlit("FINAL_USAGE_INFO:");
    }
    let mut rest = content;
    while starts_with(rest, USAGE_MARKER)
        invariant
            trim_prefixes(rest@, USAGE_MARKER@) == trim_prefixes(content@, USAGE_MARKER@),
            USAGE_MARKER@.len() == 17,
        decreases rest@.len(),
    {
        rest = suffix_from(rest, 17);
    }
    Some(owned(rest))
}


/// A task's charge is raised to one credit when it did real work (tokens,
/// or more than a second of billable time), cost nothing so far, and the
/// agent sets no per-call fee.
pub fn minimum_charge_applies(total_tokens: u32, billable_duration_ms: u64, gross_cost: u64, has_per_call_fee: bool) -> (r: bool)
    ensures
        r == ((total_tokens > 0 || billable_duration_ms > 1000) && gross_cost == 0 && !has_per_call_fee),
{
    (total_tokens > 0 || billable_duration_ms > 1000) && gross_cost == 0 && !has_per_call_fee
}

/// Whether a task's charge gets the higher tiers' discount: a current
/// (active, trial or past due) ProPlus, Power or PowerPlus subscription, on
/// an agent whose model tier category (`basic` if unset) is not `basic`.
pub fn higher_tier_discount_applies(subscription: &Option<crate::billing::SubscriptionInfo>, model_tier_category: Option<&str>) -> (r: bool)
    ensures
        r == match *subscription {
            Some(s) => (s.status == SubscriptionStatus::Active || s.status == SubscriptionStatus::Trial
                || s.status == SubscriptionStatus::PastDue)
                && (s.tier == crate::billing::SubscriptionTier::ProPlus || s.tier == crate::billing::SubscriptionTier::Power
                    || s.tier == crate::billing::SubscriptionTier::PowerPlus)
                && match model_tier_category {
                    Some(c) => c@ != "basic"@,
                    None => false,
                },
            None => false,
        },
{
    match subscription {
        Some(s) => {
            let current = match s.status {
                SubscriptionStatus::Active | SubscriptionStatus::Trial | SubscriptionStatus::PastDue => true,
                _ => false,
            };
            let higher = match s.tier {
                crate::billing::SubscriptionTier::ProPlus | crate::billing::SubscriptionTier::Power
                | crate::billing::SubscriptionTier::PowerPlus => true,
                _ => false,
            };
            let category_ok = match model_tier_category {
                Some(c) => !crate::text::str_eq(c, "basic"),
                None => false,
            };
            current && higher && category_ok
        },
        None => false,
    }
}
} // verus!
