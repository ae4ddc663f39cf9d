use form_state::accounts::{level_permits, verify_authorization, Account, AuthorizationLevel};
use form_state::api_keys::{ApiKey, ApiKeyScope};
use form_state::billing::{SubscriptionInfo, SubscriptionStatus, SubscriptionTier};

fn with_sub(tier: SubscriptionTier, status: SubscriptionStatus) -> Account {
    let mut a = Account::new("0xabc".to_string());
    let mut s = SubscriptionInfo::new_at(tier, 0);
    s.status = status;
    a.subscription = Some(s);
    a
}

#[test]
fn new_account_defaults() {
    let a = Account::new("0xabc".to_string());
    assert_eq!(a.address, "0xabc");
    assert_eq!(a.credits, 100);
    assert!(a.usage.is_some());
    assert_eq!(a.hired_agent_count(), 0);
    assert_eq!(a.max_allowed_agents(), 1);
    assert_eq!(a.max_allowed_api_keys(), 5);
    assert_eq!(a.available_credits(), 100);
    assert_eq!(a.created_at, a.updated_at);
}

#[test]
fn ownership_sets() {
    let mut a = Account::new("0xabc".to_string());
    a.add_owned_agent("ag1".to_string());
    assert!(a.owns_agent("ag1"));
    assert_eq!(a.owned_agent_count(), 1);
    assert!(a.remove_owned_agent("ag1"));
    assert!(!a.remove_owned_agent("ag1"));
    a.add_owned_model("m1".to_string());
    assert!(a.remove_owned_model("m1"));
    a.add_owned_instance("i1".to_string());
    assert!(a.remove_owned_instance("i1"));
    assert!(!a.remove_owned_instance("i1"));
}

#[test]
fn authorization_levels() {
    let mut a = Account::new("0xabc".to_string());
    a.add_owned_instance("own".to_string());
    a.add_authorization("ops".to_string(), AuthorizationLevel::Operator);
    assert_eq!(a.get_authorization_level("own"), Some(AuthorizationLevel::Owner));
    assert_eq!(a.get_authorization_level("ops"), Some(AuthorizationLevel::Operator));
    assert_eq!(a.get_authorization_level("none"), None);
    assert!(a.is_authorized("ops", AuthorizationLevel::ReadOnly));
    assert!(a.is_authorized("ops", AuthorizationLevel::Operator));
    assert!(!a.is_authorized("ops", AuthorizationLevel::Manager));
    assert!(verify_authorization(Some(&a), "own", AuthorizationLevel::Owner));
    assert!(!verify_authorization(None, "own", AuthorizationLevel::ReadOnly));
    assert_eq!(a.remove_authorization("ops"), Some(AuthorizationLevel::Operator));
    assert_eq!(a.remove_authorization("ops"), None);
    assert!(level_permits(AuthorizationLevel::Manager, AuthorizationLevel::Operator));
    assert!(!level_permits(AuthorizationLevel::ReadOnly, AuthorizationLevel::Operator));
}

#[test]
fn credits() {
    let mut a = Account::new("0xabc".to_string());
    a.add_credits(50);
    assert_eq!(a.credits, 150);
    assert!(a.deduct_credits(150));
    assert_eq!(a.credits, 0);
    assert!(!a.deduct_credits(1));
    a.add_credits(u64::MAX);
    a.add_credits(5);
    assert_eq!(a.credits, u64::MAX);
    let b = with_sub(SubscriptionTier::Pro, SubscriptionStatus::Active);
    assert_eq!(b.available_credits(), 500);
    let c = with_sub(SubscriptionTier::Pro, SubscriptionStatus::Canceled);
    assert_eq!(c.available_credits(), 100);
}

#[test]
fn hiring_rules() {
    let mut a = Account::new("0xabc".to_string());
    assert!(a.can_hire_agent("helper"));
    assert!(!a.can_hire_agent("premium_bot"));
    a.hire_agent("helper".to_string());
    assert!(!a.can_hire_agent("helper"));
    assert!(a.can_hire_additional_agent());
    assert!(a.can_hire_agent("other"));
    let mut free = with_sub(SubscriptionTier::Free, SubscriptionStatus::Active);
    free.hire_agent("a1".to_string());
    assert!(free.can_hire_agent("a2"));
    free.hire_agent("a2".to_string());
    assert!(!free.can_hire_agent("a3"));
    let mut pro = with_sub(SubscriptionTier::Pro, SubscriptionStatus::Active);
    assert!(pro.can_hire_agent("expert_x"));
    pro.credits = 0;
    pro.subscription.as_mut().unwrap().status = SubscriptionStatus::Canceled;
    for n in ["a", "b", "c"] {
        pro.hire_agent(n.to_string());
    }
    assert!(!pro.can_hire_agent("d"));
    assert!(pro.fire_agent("a"));
    assert!(pro.can_hire_agent("d"));
}

#[test]
fn token_use_rules() {
    let a = Account::new("0xabc".to_string());
    assert!(a.can_use_tokens_at("gpt", 1000, 1000, 0));
    let mut poor = Account::new("0xabc".to_string());
    poor.credits = 1;
    assert!(!poor.can_use_tokens_at("gpt", 1000, 1, 0));
    let free = with_sub(SubscriptionTier::Free, SubscriptionStatus::Active);
    assert!(free.can_use_tokens_at("basic_model", 10, 10, 0));
    assert!(!free.can_use_tokens_at("standard_model", 10, 10, 0));
    assert!(!free.can_use_tokens_at("basic_model", 60_000, 50_000, 0));
    let pro = with_sub(SubscriptionTier::Pro, SubscriptionStatus::Active);
    assert!(pro.can_use_tokens_at("standard_premium", 10, 10, 0));
    let mut pro_used = with_sub(SubscriptionTier::Pro, SubscriptionStatus::Active);
    pro_used.usage.as_mut().unwrap().record_token_usage_at("basic_premium", 1, 1, 0);
    assert!(!pro_used.can_use_tokens_at("standard_premium", 10, 10, 0));
    assert!(pro_used.can_use_tokens_at("standard_plain", 10, 10, 0));
    let mut no_tracker = Account::new("0xabc".to_string());
    no_tracker.usage = None;
    assert!(no_tracker.can_use_tokens_at("anything", u64::MAX, u64::MAX, 0));
    no_tracker.credits = 0;
    assert!(!no_tracker.can_use_tokens_at("anything", 1, 1, 0));
}

#[test]
fn usage_figures() {
    let mut a = Account::new("0xabc".to_string());
    a.usage_tracker().record_token_usage_at("m", 7, 3, 0);
    assert_eq!(a.total_token_usage(), 10);
    assert_eq!(a.today_token_usage_at(0), 10);
    assert_eq!(a.today_token_usage_at(86_400), 0);
    a.usage = None;
    assert_eq!(a.total_token_usage(), 0);
    assert!(a.get_usage().is_none());
    a.usage_tracker();
    assert!(a.get_usage().is_some());
}

#[test]
fn api_keys_on_accounts() {
    let mut a = Account::new("0xabc".to_string());
    let (k, secret) = ApiKey::new("n".to_string(), "0xabc".to_string(), ApiKeyScope::ReadOnly, None);
    let id = k.id.clone();
    assert!(a.add_api_key(k).is_ok());
    assert_eq!(a.list_all_api_keys().len(), 1);
    assert_eq!(a.list_active_api_keys_at(0).len(), 1);
    assert_eq!(a.get_api_key_by_secret(&secret).unwrap().id, id);
    assert!(a.get_api_key_by_secret("nounderscore").is_none());
    assert!(a.revoke_api_key(&id));
    assert!(!a.revoke_api_key("missing"));
    assert_eq!(a.list_active_api_keys().len(), 0);
    assert_eq!(a.list_all_api_keys().len(), 1);
    assert!(a.remove_api_key(&id));
    assert!(!a.remove_api_key(&id));
    let mut free = with_sub(SubscriptionTier::Free, SubscriptionStatus::Active);
    for _ in 0..2 {
        assert!(free.add_api_key(ApiKey::new("n".to_string(), "x".to_string(), ApiKeyScope::ReadOnly, None).0).is_ok());
    }
    assert_eq!(
        free.add_api_key(ApiKey::new("n".to_string(), "x".to_string(), ApiKeyScope::ReadOnly, None).0),
        Err("API key limit reached (2/2)".to_string())
    );
}
