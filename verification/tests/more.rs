use form_state::stores::{create_account_request, delete_account_request, update_account_request, AccountStore};
use form_state::stores::{task_precheck, update_agent_request, AgentStore, AgentUpdateError, StoredAgent};
use form_state::helpers::agent::AgentUpdateRefusal;
use form_state::api_keys::middleware::{authenticate_api_key, ApiKeyAuthOutcome};
use form_state::api_keys::ApiKeyRateLimiter;
use form_state::helpers::account::{account_list_scope, account_read_check, AccountListScope};
use form_state::auth::jwks::KeyCache;
use form_state::accounts::Account;
use form_state::api_keys::audit::{ApiKeyEvent, ApiKeyEventType};
use form_state::api_keys::middleware::find_api_key;
use form_state::api_keys::{create_api_key, ApiKey, ApiKeyScope};
use form_state::auth::ecdsa::{is_local_connection, RecoveredAddress};
use form_state::billing::handlers::{apply_checkout, subscription_response, usage_response, CheckoutOutcome};
use form_state::billing::{SubscriptionInfo, SubscriptionStatus, SubscriptionTier, UsageTracker};
use form_state::helpers::account::may_delete_account;
use form_state::helpers::agent::{agent_owner_for_create, may_delete_agent, may_view_agent};
use form_state::helpers::api_key_handlers::{audit_view_check, create_key_check, key_metadata_list};

#[test]
fn public_recording_and_checks_use_the_clock() {
    let mut t = UsageTracker::new();
    assert_eq!(t.record_token_usage("m", 999, 2), Some(2));
    assert_eq!(t.total_tokens_consumed(), 1001);
    let mut a = Account::new("0xabc".to_string());
    assert_eq!(a.usage_tracker().record_token_usage("m", 10, 10), Some(1));
    assert_eq!(a.today_token_usage(), 20);
    assert!(a.can_use_tokens("m", 10, 10));
}

#[test]
fn subscription_and_usage_reports() {
    let mut a = Account::new("0xabc".to_string());
    let mut s = SubscriptionInfo::new_at(SubscriptionTier::Pro, 0);
    s.status = SubscriptionStatus::Active;
    a.subscription = Some(s);
    a.hire_agent("ag".to_string());
    let r = subscription_response(&a).unwrap();
    assert_eq!(r.tier, SubscriptionTier::Pro);
    assert_eq!(r.current_agents, 1);
    assert_eq!(r.inference_credits, 500);
    assert_eq!(r.current_period_start, "1970-01-01T00:00:00+00:00");
    assert_eq!(r.current_period_end, "1970-01-31T00:00:00+00:00");
    let b = Account::new("0xdef".to_string());
    let r = subscription_response(&b).unwrap();
    assert_eq!(r.tier, SubscriptionTier::Free);
    assert_eq!(r.status, SubscriptionStatus::Trial);
    assert_eq!(a.usage_tracker().record_token_usage("gpt", 150_000, 50_000), Some(200));
    let u = usage_response(&a);
    assert_eq!(u.agents_hired, 1);
    assert_eq!(u.available_credits, 500);
    assert_eq!(u.agent_usage.len(), 1);
    assert_eq!(u.agent_usage[0].agent_id, "ag");
    assert_eq!(u.model_usage.len(), 1);
    assert_eq!(u.model_usage[0].tokens, 200_000);
}

#[test]
fn checkout_sessions() {
    let mut a = Account::new("0xabc".to_string());
    assert_eq!(apply_checkout(&mut a, None, Some(25)), CheckoutOutcome::CreditsAdded);
    assert_eq!(a.credits, 125);
    assert_eq!(apply_checkout(&mut a, Some(SubscriptionInfo::new_at(SubscriptionTier::Power, 0)), Some(5)), CheckoutOutcome::SubscriptionUpdated);
    assert_eq!(a.credits, 125);
    assert_eq!(a.subscription.as_ref().unwrap().tier, SubscriptionTier::Power);
    assert_eq!(apply_checkout(&mut a, None, None), CheckoutOutcome::NothingToApply);
}

#[test]
fn key_handler_checks() {
    let mut a = Account::new("0xabc".to_string());
    assert_eq!(create_key_check(&a, "name"), None);
    let (meta, secret) = create_api_key(&mut a, "name".to_string(), ApiKeyScope::ReadOnly, Some("desc".to_string())).ok().unwrap();
    let list = key_metadata_list(&a);
    assert_eq!(list.len(), 1);
    assert_eq!(list[0].id, meta.id);
    assert_eq!(list[0].description, Some("desc".to_string()));
    let ro = a.get_api_key(&meta.id).unwrap().copy();
    assert_eq!(audit_view_check(&ro, &a, &meta.id), Some("API key does not have permission to view API key audit logs"));
    let admin = ApiKey::new("n".to_string(), "0xabc".to_string(), ApiKeyScope::Admin, None).0;
    assert_eq!(audit_view_check(&admin, &a, &meta.id), None);
    assert_eq!(audit_view_check(&admin, &a, "other"), Some("You do not have permission to view audit logs for this API key"));
    let accounts = vec![a];
    assert_eq!(find_api_key(&accounts, &secret, None).map(|(i, _)| i), Some(0));
}

#[test]
fn agent_and_account_permissions() {
    assert!(may_view_agent(false, None, false, "0xa", false));
    assert!(!may_view_agent(false, None, false, "0xa", true));
    assert!(may_view_agent(false, Some("A"), false, "0xa", true));
    assert!(may_view_agent(false, Some("b"), true, "0xa", true));
    assert!(may_view_agent(true, None, false, "0xa", true));
    assert_eq!(agent_owner_for_create(true, None, "0xowner"), Some("0xowner".to_string()));
    assert_eq!(agent_owner_for_create(false, Some("abc"), "0xowner"), Some("abc".to_string()));
    assert_eq!(agent_owner_for_create(false, None, "0xowner"), None);
    assert!(may_delete_agent("0xABC", "0xabc", false));
    assert!(!may_delete_agent("0xabc", "0xdef", false));
    assert!(may_delete_agent("0xabc", "0xdef", true));
    assert!(may_delete_account("ABC", "abc"));
    assert!(!may_delete_account("abc", "abd"));
}

#[test]
fn connections_and_addresses() {
    assert!(is_local_connection("127.0.0.1:8080"));
    assert!(is_local_connection("::1"));
    assert!(!is_local_connection("10.0.0.1:1"));
    let r = RecoveredAddress { address: [0xab; 20], message: vec![] };
    assert_eq!(r.as_hex(), "ab".repeat(20));
}

#[test]
fn audit_event_constructors() {
    let e = ApiKeyEvent::new_revocation("k".to_string(), "a".to_string(), Some("lost".to_string()), None, None);
    assert!(matches!(e.event_type, ApiKeyEventType::Revoked { reason: Some(ref r) } if r == "lost"));
    let e = ApiKeyEvent::new_permissions_update("k".to_string(), "a".to_string(), "ReadOnly".to_string(), "Admin".to_string(), None, None);
    assert!(matches!(e.event_type, ApiKeyEventType::PermissionsUpdated { .. }));
    let e = ApiKeyEvent::new_expiration_update("k".to_string(), "a".to_string(), None, Some(5), None, None);
    assert!(matches!(e.event_type, ApiKeyEventType::ExpirationUpdated { previous_expiration: None, new_expiration: Some(5) }));
    assert!(e.timestamp > 0);
}

#[test]
fn key_cache_keeps_rotated_keys() {
    let mut c: KeyCache<u32> = KeyCache::new();
    assert!(!c.loaded);
    assert_eq!(c.get_key("a"), None);
    c.update(vec![("a".to_string(), 1), ("b".to_string(), 2), ("a".to_string(), 3)], 3600);
    assert_eq!(c.refresh_delay_secs, 3600);
    assert!(c.loaded && c.last_fetch_success);
    assert_eq!(c.get_key("a"), Some(&3));
    assert_eq!(c.get_key("b"), Some(&2));
    c.update(vec![("c".to_string(), 4), ("b".to_string(), 5)], 3500);
    assert_eq!(c.get_key("a"), Some(&3));
    assert_eq!(c.get_key("b"), Some(&5));
    assert_eq!(c.len(), 3);
    assert_eq!(c.all_keys().iter().map(|(k, _)| k.as_str()).collect::<Vec<_>>(), vec!["a", "b", "c"]);
    c.record_failure();
    assert!(!c.last_fetch_success);
    assert_eq!(c.refresh_delay_secs, 30);
    assert_eq!(c.get_key("c"), Some(&4));
}

#[test]
fn account_listing_and_reading() {
    assert_eq!(account_list_scope(true, None, false), AccountListScope::All);
    assert_eq!(account_list_scope(false, Some("abc"), true), AccountListScope::All);
    assert_eq!(account_list_scope(false, Some("abc"), false), AccountListScope::Own("abc".to_string()));
    assert_eq!(account_list_scope(false, None, false), AccountListScope::Forbidden);
    assert_eq!(account_read_check(None, false, "0xabc"), Some((401, "Missing signature for non-localhost call")));
    assert_eq!(account_read_check(None, true, "0xabc"), None);
    assert_eq!(account_read_check(Some("ABC"), false, "0xabc"), None);
    assert_eq!(account_read_check(Some("def"), false, "0xabc"), Some((403, "You can only access your own account")));
    assert_eq!(account_read_check(Some("def"), true, "0xabc"), None);
}

#[test]
fn premium_agents_need_a_subscription() {
    let mut a = Account::new("0xabc".to_string());
    a.hire_agent("one".to_string());
    a.credits = 10;
    assert!(!a.can_hire_agent("premium_x"));
    assert!(!a.can_hire_agent("expert_y"));
    assert!(a.can_hire_agent("plain"));
}

#[test]
fn account_store_requests() {
    let mut store = AccountStore::new();
    assert_eq!(create_account_request(&mut store, "abc", Account::new("0xabc".to_string())), Ok(()));
    assert!(store.get_account("0xabc").is_some());
    assert_eq!(create_account_request(&mut store, "abc", Account::new("0xabc".to_string())).err().map(|e| e.0), Some(409));
    assert_eq!(create_account_request(&mut store, "def", Account::new("0xabc".to_string())).err().map(|e| e.0), Some(403));
    let mut changed = Account::new("0xabc".to_string());
    changed.credits = 7;
    assert_eq!(update_account_request(&mut store, Some("0xABC"), false, changed), Ok(()));
    assert_eq!(store.get_account("0xabc").unwrap().credits, 7);
    assert_eq!(update_account_request(&mut store, Some("0xdef"), false, Account::new("0xdef".to_string())).err(),
        Some((404, "Account with address 0xdef does not exist".to_string())));
    assert_eq!(update_account_request(&mut store, None, false, Account::new("0xabc".to_string())).err().map(|e| e.0), Some(403));
    let mut owner = Account::new("0xo".to_string());
    owner.add_owned_instance("i1".to_string());
    store.update_account_local(owner);
    assert_eq!(store.get_owners_of_instance("i1").len(), 1);
    assert_eq!(store.list_accounts().len(), 2);
    assert!(store.verify_authorization("0xo", "i1", form_state::accounts::AuthorizationLevel::Owner));
    assert_eq!(delete_account_request(&mut store, "0xo", "0xo"), Ok(()));
    assert!(store.get_account("0xo").is_none());
    assert_eq!(delete_account_request(&mut store, "0xo", "0xo").err().map(|e| e.0), Some(404));
}

#[test]
fn agent_store_and_task_checks() {
    let agent = |owner: &str, private: bool, d: u32| StoredAgent { agent_id: "a1".to_string(), owner_id: owner.to_string(), is_private: private, details: d };
    let mut agents: AgentStore<u32> = AgentStore::new();
    assert_eq!(update_agent_request(&mut agents, agent("0xa", true, 1), true, None, false), Err(AgentUpdateError::NotFound));
    agents.update_agent_local(agent("0xa", true, 1));
    assert_eq!(update_agent_request(&mut agents, agent("0xa", true, 2), false, Some("a"), false), Ok(()));
    assert_eq!(agents.get_agent("a1").unwrap().details, 2);
    assert_eq!(update_agent_request(&mut agents, agent("0xb", true, 3), false, Some("a"), false),
        Err(AgentUpdateError::Refused(AgentUpdateRefusal::OwnerChange)));
    assert_eq!(update_agent_request(&mut agents, agent("0xa", true, 3), false, Some("z"), false),
        Err(AgentUpdateError::Refused(AgentUpdateRefusal::NotPermitted)));
    let mut accounts = AccountStore::new();
    let e = task_precheck(&accounts, &agents, "caller", "a1").err().unwrap();
    assert_eq!((e.code.as_str(), e.status_code, e.path.as_str()), ("ACCOUNT_NOT_FOUND", 403, "/agents/a1/run_task"));
    accounts.update_account_local(Account::new("caller".to_string()));
    let e = task_precheck(&accounts, &agents, "caller", "zz").err().unwrap();
    assert_eq!((e.code.as_str(), e.status_code, e.message.as_str()), ("AGENT_NOT_FOUND", 404, "Agent 'zz' not found."));
    let e = task_precheck(&accounts, &agents, "caller", "a1").err().unwrap();
    assert_eq!((e.code.as_str(), e.status_code), ("NOT_ELIGIBLE", 402));
    accounts.update_account_local(Account::new("0xA".to_string()));
    assert!(task_precheck(&accounts, &agents, "0xA", "a1").is_ok());
}

#[test]
fn api_key_authentication_sequence() {
    let mut a = Account::new("0xa".to_string());
    let (_, secret) = create_api_key(&mut a, "k".to_string(), ApiKeyScope::Admin, None).ok().unwrap();
    let accounts = vec![a];
    let mut limiter = ApiKeyRateLimiter::new();
    assert!(matches!(authenticate_api_key(&mut limiter, &accounts, true, "/agents", false, None, None, None, None), ApiKeyAuthOutcome::Bypass));
    assert!(matches!(authenticate_api_key(&mut limiter, &accounts, false, "/x", false, None, None, None, None), ApiKeyAuthOutcome::Unauthorized));
    assert!(matches!(authenticate_api_key(&mut limiter, &accounts, false, "/x", false, Some("sk_bad"), None, None, None), ApiKeyAuthOutcome::Unauthorized));
    let bearer = format!("Bearer {}", secret);
    for _ in 0..30 {
        assert!(matches!(authenticate_api_key(&mut limiter, &accounts, false, "/x", false, None, Some(&bearer), Some("1.2.3.4"), None),
            ApiKeyAuthOutcome::Accepted { account_index: 0, .. }));
    }
    match authenticate_api_key(&mut limiter, &accounts, false, "/x", false, Some(&secret), None, None, Some("5.6.7.8".to_string())) {
        ApiKeyAuthOutcome::RateLimited { client_ip, .. } => assert_eq!(client_ip, Some("5.6.7.8".to_string())),
        _ => panic!("expected the rate limit"),
    }
}

#[test]
fn clock_explicit_checks() {
    let mut limiter = ApiKeyRateLimiter::new();
    let t = std::time::Instant::now();
    let r = limiter.check_rate_limit_at("k", &form_state::billing::SubscriptionTier::Free, t, (999_000_000_000, 0, 0));
    assert_eq!(r, form_state::api_keys::RateLimitCheckResult::Allowed { remaining_minute: 29, remaining_hour: 499, remaining_day: 4999 });
    assert!(limiter.window_ages("k", t).is_some());
    assert!(limiter.window_ages("other", t).is_none());
    let mut a = Account::new("0xa".to_string());
    let (_, secret) = create_api_key(&mut a, "k".to_string(), ApiKeyScope::Admin, None).ok().unwrap();
    let accounts = vec![a];
    let now = accounts[0].created_at;
    match form_state::api_keys::middleware::authenticate_api_key_at(&mut limiter, &accounts, false, "/x", false, Some(&secret), None,
        None, None, now, t, (0, 0, 0)) {
        ApiKeyAuthOutcome::Accepted { account_index: 0, result, .. } => assert_eq!(result,
            form_state::api_keys::RateLimitCheckResult::Allowed { remaining_minute: 29, remaining_hour: 499, remaining_day: 4999 }),
        _ => panic!("expected acceptance"),
    }
}

#[test]
fn recording_refuses_only_totals_it_would_overflow() {
    let mut t = UsageTracker::new();
    let mut old_day = form_state::billing::usage::DailyUsage::zero_on("2000-01-01".to_string());
    old_day.total_tokens = u64::MAX;
    t.daily_usage.insert("2000-01-01".to_string(), old_day);
    assert_eq!(t.record_token_usage("m", 1_500, 0), Some(2));
    assert_eq!(t.record_token_usage("m", u64::MAX - 1_499, 0), None);
    assert_eq!(t.total_tokens_consumed(), 1_500);
    assert_eq!(t.current_period_credits_used, 2);
    assert_eq!(t.record_agent_usage("ag", 1_000, 1), Some(1));
    t.current_period_credits_used = u64::MAX;
    assert_eq!(t.record_agent_usage("ag", 1_000, 1), None);
    assert_eq!(t.agent_usage_stats("ag").unwrap().hire_count, 1);
}
