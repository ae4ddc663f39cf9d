use form_state::billing::{SubscriptionInfo, SubscriptionStatus, SubscriptionTier, UsageTracker};
use form_state::billing::middleware::{agent_use_check, token_use_check, EligibilityError};
use form_state::billing::stripe::{agent_eligibility, token_eligibility, BillingError};

fn sub(tier: SubscriptionTier, status: SubscriptionStatus) -> SubscriptionInfo {
    let mut s = SubscriptionInfo::new_at(tier, 0);
    s.status = status;
    s
}

#[test]
fn tier_quotas() {
    let q = SubscriptionTier::Free.quota();
    assert_eq!(q.max_agents, 1);
    assert_eq!(q.inference_credits, 100);
    assert_eq!(q.daily_token_limit, Some(100_000));
    assert_eq!(q.max_api_keys, 2);
    assert_eq!(q.model_access, vec!["basic".to_string()]);
    let q = SubscriptionTier::PowerPlus.quota();
    assert_eq!(q.max_agents, 25);
    assert_eq!(q.inference_credits, 10000);
    assert_eq!(q.daily_token_limit, None);
    assert_eq!(q.model_access.len(), 5);
    assert_eq!(q.additional_agent_discount, 25);
    assert!(q.premium_agent_access);
}

#[test]
fn higher_tiers_never_offer_less() {
    let tiers = [SubscriptionTier::Free, SubscriptionTier::Pro, SubscriptionTier::ProPlus, SubscriptionTier::Power, SubscriptionTier::PowerPlus];
    for w in tiers.windows(2) {
        let (a, b) = (w[0].quota(), w[1].quota());
        assert!(a.max_agents <= b.max_agents);
        assert!(a.inference_credits <= b.inference_credits);
        assert!(a.max_api_keys <= b.max_api_keys);
        assert!(a.model_access.iter().all(|m| b.model_access.contains(m)));
    }
}

#[test]
fn new_subscription_is_a_thirty_day_trial() {
    let s = SubscriptionInfo::new_at(SubscriptionTier::Pro, 1_000);
    assert_eq!(s.status, SubscriptionStatus::Trial);
    assert_eq!(s.current_period_end, 1_000 + 2_592_000);
    assert_eq!(s.max_agents, 3);
    assert_eq!(s.inference_credits_per_period, 500);
}

#[test]
fn token_cost_rounds_up_per_thousand() {
    let t = UsageTracker::new_at(0);
    assert_eq!(t.estimate_token_cost("m", 0, 0), 0);
    assert_eq!(t.estimate_token_cost("m", 1, 0), 1);
    assert_eq!(t.estimate_token_cost("m", 600, 400), 1);
    assert_eq!(t.estimate_token_cost("m", 600, 401), 2);
    assert_eq!(t.estimate_token_cost("m", 2500, 0), 3);
}

#[test]
fn recording_tokens_updates_every_view() {
    let mut t = UsageTracker::new_at(0);
    let cost = t.record_token_usage_at("gpt", 1500, 600, 3_600 * 5 + 10);
    assert_eq!(cost, 3);
    assert_eq!(t.current_period_credits_used, 3);
    assert_eq!(t.total_tokens_consumed(), 2100);
    let m = t.model_usage("gpt");
    assert_eq!((m.input_tokens, m.output_tokens, m.request_count), (1500, 600, 1));
    let month = t.token_usage.get("1970-01").unwrap();
    assert_eq!(month.tokens_consumed, 2100);
    let day = t.daily_usage.get("1970-01-01").unwrap();
    assert_eq!(day.total_tokens, 2100);
    assert_eq!(day.hourly_breakdown[5], 2100);
    assert_eq!(day.hourly_breakdown[4], 0);
    assert!(t.weekly_usage.get("1970-W01").is_some());
    assert_eq!(t.current_period_tokens(), 2100);
    t.record_token_usage_at("gpt", 10, 0, 20);
    assert_eq!(t.total_tokens_consumed(), 2110);
    assert_eq!(t.model_usage("gpt").request_count, 2);
}

#[test]
fn credits_remaining_and_reset() {
    let mut t = UsageTracker::new_at(0);
    t.record_token_usage_at("a", 5000, 0, 0);
    assert_eq!(t.remaining_credits(100), 95);
    assert_eq!(t.remaining_credits(3), 0);
    assert!(t.has_sufficient_credits(100, 95));
    assert!(!t.has_sufficient_credits(100, 96));
    t.reset_period_usage();
    assert_eq!(t.current_period_credits_used, 0);
    assert_eq!(t.total_tokens_consumed(), 5000);
}

#[test]
fn agent_usage_is_recorded() {
    let mut t = UsageTracker::new_at(0);
    assert_eq!(t.record_agent_usage_at("agent-1", 1500, 2, 100), 2);
    assert_eq!(t.record_agent_usage_at("agent-1", 500, 1, 200), 1);
    let s = t.agent_usage_stats("agent-1").unwrap();
    assert_eq!((s.total_hours_ms, s.hire_count, s.last_used), (2000, 2, 200));
    assert_eq!(t.total_agent_hours_ms_at(None, 0), 2000);
    assert_eq!(t.total_agent_hours_ms_at(Some("1970-02".to_string()), 0), 0);
    assert_eq!(t.current_period_credits_used, 3);
    assert_eq!(t.today_usage_at(0).agent_requests, 2);
}

#[test]
fn stripe_token_eligibility() {
    let active = Some(sub(SubscriptionTier::Free, SubscriptionStatus::Active));
    assert_eq!(token_eligibility(&active, 100, 0, 5).ok(), Some(true));
    assert_eq!(token_eligibility(&active, 101, 5, 5).ok(), Some(true));
    match token_eligibility(&active, 101, 4, 5) {
        Err(BillingError::InsufficientCredits(m)) => assert_eq!(m, "Account has insufficient credits: available=4, required=5"),
        _ => panic!("expected refusal"),
    }
    let canceled = Some(sub(SubscriptionTier::Free, SubscriptionStatus::Canceled));
    match token_eligibility(&canceled, 1, 0, 1) {
        Err(e) => assert_eq!(e.describe(), "Insufficient credits: Account has inactive subscription and insufficient credits: available=0, required=1"),
        _ => panic!("expected refusal"),
    }
    assert!(token_eligibility(&None, 1, 0, 1).is_err());
}

#[test]
fn stripe_agent_eligibility() {
    let trial = Some(sub(SubscriptionTier::Pro, SubscriptionStatus::Trial));
    assert!(agent_eligibility(&trial, 2, 0, 100).is_ok());
    match agent_eligibility(&trial, 3, 99, 100) {
        Err(BillingError::InsufficientCredits(m)) => assert_eq!(m, "Account has reached agent limit and has insufficient credits: current_agents=3, max_agents=3, available_credits=99, required=100"),
        _ => panic!("expected refusal"),
    }
    assert!(agent_eligibility(&None, 0, 100, 100).is_ok());
}

#[test]
fn middleware_checks() {
    let past_due = Some(sub(SubscriptionTier::Free, SubscriptionStatus::PastDue));
    assert!(agent_use_check(&past_due, 0, 0).is_ok());
    assert!(matches!(agent_use_check(&past_due, 1, 9), Err(EligibilityError::AgentLimitReached { current: 1, maximum: 1 })));
    let expired = Some(sub(SubscriptionTier::Free, SubscriptionStatus::Expired));
    assert!(matches!(agent_use_check(&expired, 0, 1000), Err(EligibilityError::InactiveSubscription)));
    assert!(matches!(agent_use_check(&None, 0, 9), Err(EligibilityError::InsufficientCredits { available: 9, required: 10 })));
    let active = Some(sub(SubscriptionTier::Free, SubscriptionStatus::Active));
    assert!(token_use_check(&active, Some(50), 50, 0).is_ok());
    assert!(token_use_check(&active, Some(50), 51, 0).is_ok());
    assert!(matches!(token_use_check(&active, Some(50), 20_000, 1), Err(EligibilityError::InsufficientCredits { available: 1, required: 2 })));
    assert!(token_use_check(&active, None, 1_000_000, 0).is_ok());
    assert!(token_use_check(&None, None, 9_999, 0).is_ok());
}

#[test]
fn eligibility_error_texts() {
    let e = EligibilityError::InsufficientCredits { available: 3, required: 10 };
    assert_eq!(e.describe(), "Insufficient credits: available=3, required=10");
    assert_eq!(e.status_code(), 402);
    assert_eq!(e.error_code(), "insufficient_credits");
    assert_eq!(e.additional_needed(), Some(7));
    assert_eq!(EligibilityError::AgentNotFound.status_code(), 404);
    assert_eq!(EligibilityError::AuthError.status_code(), 401);
    assert_eq!(EligibilityError::Other("x".to_string()).describe(), "Eligibility error: x");
    assert_eq!(EligibilityError::Other("x".to_string()).status_code(), 500);
}
