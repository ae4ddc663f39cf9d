//! The decisions behind the subscription and usage limits that requests for
//! agents and tokens must meet, and the errors they answer with.

use vstd::prelude::*;
use crate::billing::{SubscriptionInfo, SubscriptionStatus};
use crate::text::{concat, owned, u64_to_decimal, decimal};

verus! {

/// Error response for eligibility checks.
#[derive(Debug, Clone)]
pub enum EligibilityError {
    /// Account has insufficient credits for the operation
    InsufficientCredits { available: u64, required: u64 },
    /// Account has reached maximum allowed agents
    AgentLimitReached { current: u32, maximum: u32 },
    /// Account subscription is inactive or expired
    InactiveSubscription,
    /// Agent is not found
    AgentNotFound,
    /// Account is not found
    AccountNotFound,
    /// Authentication error
    AuthError,
    /// Other errors
    Other(String),
}

/// The one-line description of an eligibility error.
pub open spec fn spec_eligibility_text(e: EligibilityError) -> Seq<char> {
    match e {
        EligibilityError::InsufficientCredits { available, required } =>
            "Insufficient credits: available="@ + decimal(available as nat) + ", required="@ + decimal(required as nat),
        EligibilityError::AgentLimitReached { current, maximum } =>
            "Agent limit reached: current="@ + decimal(current as nat) + ", maximum="@ + decimal(maximum as nat),
        EligibilityError::InactiveSubscription => "Inactive subscription"@,
        EligibilityError::AgentNotFound => "Agent not found"@,
        EligibilityError::AccountNotFound => "Account not found"@,
        EligibilityError::AuthError => "Authentication error"@,
        EligibilityError::Other(m) => "Eligibility error: "@ + m@,
    }
}

/// The message of an eligibility error's response body.
pub open spec fn spec_eligibility_message(e: EligibilityError) -> Seq<char> {
    match e {
        EligibilityError::InsufficientCredits { .. } => "Insufficient credits to perform this operation"@,
        EligibilityError::AgentLimitReached { .. } => "Maximum allowed agents reached for your subscription tier"@,
        EligibilityError::InactiveSubscription => "Your subscription is inactive or expired"@,
        EligibilityError::AgentNotFound => "The requested agent was not found"@,
        EligibilityError::AccountNotFound => "Account not found"@,
        EligibilityError::AuthError => "Authentication error"@,
        EligibilityError::Other(m) => m@,
    }
}

impl EligibilityError {
    /// The one-line description of the error.
    pub fn describe(&self) -> (r: String)
        ensures
            r@ == spec_eligibility_text(*self),
    {
        match self {
            EligibilityError::InsufficientCredits { available, required } => {
                let a = u64_to_decimal(*available);
                let b = concat("Insufficient credits: available=", a.as_str());
                let c = concat(b.as_str(), ", required=");
                let d = u64_to_decimal(*required);
                concat(c.as_str(), d.as_str())
            },
            EligibilityError::AgentLimitReached { current, maximum } => {
                let a = u64_to_decimal(*current as u64);
                let b = concat("Agent limit reached: current=", a.as_str());
                let c = concat(b.as_str(), ", maximum=");
                let d = u64_to_decimal(*maximum as u64);
                concat(c.as_str(), d.as_str())
            },
            EligibilityError::InactiveSubscription => owned("Inactive subscription"),
            EligibilityError::AgentNotFound => owned("Agent not found"),
            EligibilityError::AccountNotFound => owned("Account not found"),
            EligibilityError::AuthError => owned("Authentication error"),
            EligibilityError::Other(m) => concat("Eligibility error: ", m.as_str()),
        }
    }

    /// The HTTP status of the error's response.
    pub fn status_code(&self) -> (r: u16)
        ensures
            r == match *self {
                EligibilityError::InsufficientCredits { .. } => 402u16,
                EligibilityError::AgentLimitReached { .. } => 402u16,
                EligibilityError::InactiveSubscription => 402u16,
                EligibilityError::AgentNotFound => 404u16,
                EligibilityError::AccountNotFound => 404u16,
                EligibilityError::AuthError => 401u16,
                EligibilityError::Other(_) => 500u16,
            },
    {
        match self {
            EligibilityError::InsufficientCredits { .. } => 402,
            EligibilityError::AgentLimitReached { .. } => 402,
            EligibilityError::InactiveSubscription => 402,
            EligibilityError::AgentNotFound => 404,
            EligibilityError::AccountNotFound => 404,
            EligibilityError::AuthError => 401,
            EligibilityError::Other(_) => 500,
        }
    }

    /// The machine-readable error code of the error's response body.
    pub fn error_code(&self) -> (r: &'static str)
        ensures
            r@ == match *self {
                EligibilityError::InsufficientCredits { .. } => "insufficient_credits"@,
                EligibilityError::AgentLimitReached { .. } => "agent_limit_reached"@,
                EligibilityError::InactiveSubscription => "inactive_subscription"@,
                EligibilityError::AgentNotFound => "agent_not_found"@,
                EligibilityError::AccountNotFound => "account_not_found"@,
                EligibilityError::AuthError => "authentication_error"@,
                EligibilityError::Other(_) => "eligibility_error"@,
            },
    {
        match self {
            EligibilityError::InsufficientCredits { .. } => "insufficient_credits",
            EligibilityError::AgentLimitReached { .. } => "agent_limit_reached",
            EligibilityError::InactiveSubscription => "inactive_subscription",
            EligibilityError::AgentNotFound => "agent_not_found",
            EligibilityError::AccountNotFound => "account_not_found",
            EligibilityError::AuthError => "authentication_error",
            EligibilityError::Other(_) => "eligibility_error",
        }
    }

    /// The message of the error's response body.
    pub fn message(&self) -> (r: String)
        ensures
            r@ == spec_eligibility_message(*self),
    {
        match self {
            EligibilityError::InsufficientCredits { .. } => owned("Insufficient credits to perform this operation"),
            EligibilityError::AgentLimitReached { .. } => owned("Maximum allowed agents reached for your subscription tier"),
            EligibilityError::InactiveSubscription => owned("Your subscription is inactive or expired"),
            EligibilityError::AgentNotFound => owned("The requested agent was not found"),
            EligibilityError::AccountNotFound => owned("Account not found"),
            EligibilityError::AuthError => owned("Authentication error"),
            EligibilityError::Other(m) => m.clone(),
        }
    }

    /// The credits still missing, for an `InsufficientCredits` error.
    pub fn additional_needed(&self) -> (r: Option<u64>)
        ensures
            r == match *self {
                EligibilityError::InsufficientCredits { available, required } =>
                    Some(if required > available { (required - available) as u64 } else { 0u64 }),
                _ => None::<u64>,
            },
    {
        match self {
            EligibilityError::InsufficientCredits { available, required } =>
                Some(if *required > *available { *required - *available } else { 0 }),
            _ => None,
        }
    }
}

/// Credits that an agent beyond the subscription's limit (or without a
/// subscription) requires the account to hold.
pub const AGENT_CREDIT_REQUIREMENT: u64 = 10;

/// Tokens per credit of pay-as-you-go token use.
pub const TOKENS_PER_CREDIT: u64 = 10_000;

/// The answer to a request for an agent by an account with `subscription`,
/// `current_agents` hired agents and `available` credits.
pub open spec fn spec_agent_check(sub: Option<SubscriptionInfo>, current_agents: u32, available: u64) -> Result<(), EligibilityError> {
    match sub {
        Some(s) => if !(s.status == SubscriptionStatus::Active || s.status == SubscriptionStatus::Trial
            || s.status == SubscriptionStatus::PastDue) {
            Err(EligibilityError::InactiveSubscription)
        } else if current_agents >= s.max_agents && available < AGENT_CREDIT_REQUIREMENT {
            Err(EligibilityError::AgentLimitReached { current: current_agents, maximum: s.max_agents })
        } else {
            Ok(())
        },
        None => if available < AGENT_CREDIT_REQUIREMENT {
            Err(EligibilityError::InsufficientCredits { available, required: AGENT_CREDIT_REQUIREMENT })
        } else {
            Ok(())
        },
    }
}

/// Decides whether an account may use an agent: its subscription, if any,
/// must be active, in trial or past due; beyond the subscription's agent
/// limit, or without a subscription, it must hold enough credits.
pub fn agent_use_check(subscription: &Option<SubscriptionInfo>, current_agents: u32, available_credits: u64) -> (r: Result<(), EligibilityError>)
    ensures
        r == spec_agent_check(*subscription, current_agents, available_credits),
{
    if let Some(sub) = subscription {
        match sub.status {
            SubscriptionStatus::Active | SubscriptionStatus::Trial | SubscriptionStatus::PastDue => {},
            _ => {
                return Err(EligibilityError::InactiveSubscription);
            },
        }
        if current_agents >= sub.max_agents {
            if available_credits < AGENT_CREDIT_REQUIREMENT {
                return Err(EligibilityError::AgentLimitReached { current: current_agents, maximum: sub.max_agents });
            }
        }
    } else {
        if available_credits < AGENT_CREDIT_REQUIREMENT {
            return Err(EligibilityError::InsufficientCredits { available: available_credits, required: AGENT_CREDIT_REQUIREMENT });
        }
    }
    Ok(())
}

/// The answer to a request for `token_count` tokens by an account with
/// `subscription`, this period's token use `period_tokens` (`None` if it
/// tracks no usage) and `available` credits.
pub open spec fn spec_token_check(sub: Option<SubscriptionInfo>, period_tokens: Option<u64>, token_count: u64, available: u64) -> Result<(), EligibilityError> {
    let required = token_count / TOKENS_PER_CREDIT;
    let pay = if required > 0 && available < required {
        Err(EligibilityError::InsufficientCredits { available, required: required as u64 })
    } else {
        Ok(())
    };
    match sub {
        Some(s) => match period_tokens {
            Some(used) => if used + token_count <= s.inference_credits_per_period { Ok(()) } else { pay },
            None => Ok(()),
        },
        None => pay,
    }
}

/// Decides whether an account may consume `token_count` tokens: within the
/// subscription's period allowance it may; beyond it, or without a
/// subscription, its credits must cover one credit per ten thousand tokens.
pub fn token_use_check(
    subscription: &Option<SubscriptionInfo>,
    period_tokens: Option<u64>,
    token_count: u64,
    available_credits: u64,
) -> (r: Result<(), EligibilityError>)
    requires
        subscription is Some ==> (period_tokens matches Some(used) ==> used + token_count <= u64::MAX),
    ensures
        r == spec_token_check(*subscription, period_tokens, token_count, available_credits),
{
    if let Some(sub) = subscription {
        if let Some(used) = period_tokens {
            if used + token_count <= sub.inference_credits_per_period {
                return Ok(());
            }
            let required_credits = token_count / TOKENS_PER_CREDIT;
            if required_credits > 0 && available_credits < required_credits {
                return Err(EligibilityError::InsufficientCredits { available: available_credits, required: required_credits });
            }
        }
    } else {
        let required_credits = token_count / TOKENS_PER_CREDIT;
        if required_credits > 0 && available_credits < required_credits {
            return Err(EligibilityError::InsufficientCredits { available: available_credits, required: required_credits });
        }
    }
    Ok(())
}


/// More credits never turn an allowed agent use or token use into a
/// refused one.
pub proof fn lemma_use_checks_monotone(sub: Option<SubscriptionInfo>, current_agents: u32, period_tokens: Option<u64>,
    token_count: u64, fewer: u64, more: u64)
    requires
        fewer <= more,
    ensures
        spec_agent_check(sub, current_agents, fewer) is Ok ==> spec_agent_check(sub, current_agents, more) is Ok,
        spec_token_check(sub, period_tokens, token_count, fewer) is Ok
            ==> spec_token_check(sub, period_tokens, token_count, more) is Ok,
{
}

/// Token use is paid from credits at one credit per ten thousand tokens
/// (rounded down) without a subscription, or beyond the subscription's
/// period allowance: it is refused with the credits available and required
/// exactly when that many credits are owed and the account holds fewer.
/// Within the allowance, or when no usage is tracked, it is allowed.
pub proof fn lemma_token_check_pays_credits(sub: Option<SubscriptionInfo>, period_tokens: Option<u64>, token_count: u64,
    available: u64)
    ensures
        (match sub {
            Some(s) => match period_tokens {
                Some(used) => used + token_count > s.inference_credits_per_period,
                None => false,
            },
            None => true,
        }) ==> spec_token_check(sub, period_tokens, token_count, available) == if token_count / 10000 > 0
            && available < token_count / 10000 {
            Err::<(), EligibilityError>(EligibilityError::InsufficientCredits { available, required: token_count / 10000 })
        } else {
            Ok(())
        },
        (match sub {
            Some(s) => match period_tokens {
                Some(used) => used + token_count <= s.inference_credits_per_period,
                None => true,
            },
            None => false,
        }) ==> spec_token_check(sub, period_tokens, token_count, available) is Ok,
{
}

} // verus!
