use std::str::FromStr;
use form_state::accounts::Account;
use form_state::api_keys::audit::{ApiKeyAuditLog, ApiKeyEvent, ApiKeyEventType, MAX_EVENTS_PER_KEY};
use form_state::api_keys::middleware::{bypasses_auth, client_ip, extract_api_key, find_api_key_at, is_rate_limited};
use form_state::api_keys::rate_limiter::{RateLimitConfig, RateLimiterEntry};
use form_state::api_keys::{
    create_api_key, get_rate_limit_headers, ApiKey, ApiKeyError, ApiKeyMetadata, ApiKeyRateLimiter, ApiKeyScope,
    ApiKeyStatus, RateLimitCheckResult,
};
use form_state::billing::SubscriptionTier;

fn key(scope: ApiKeyScope) -> ApiKey {
    ApiKey::new("k".to_string(), "acct".to_string(), scope, None).0
}

#[test]
fn new_key_has_prefixed_ids_and_verifies_its_secret() {
    let (k, secret) = ApiKey::new("name".to_string(), "0xabc".to_string(), ApiKeyScope::ReadWrite, Some("d".to_string()));
    assert!(k.id.starts_with("key_") && k.id.len() == 40);
    assert!(secret.starts_with("sk_") && secret.len() == 39);
    assert_eq!(k.hashed_secret, format!("hashed_{}", secret));
    assert!(k.verify_secret(&secret));
    assert!(!k.verify_secret("sk_other"));
    assert_eq!(k.status, ApiKeyStatus::Active);
    assert!(k.is_valid());
    let (k2, s2) = ApiKey::new("name".to_string(), "0xabc".to_string(), ApiKeyScope::ReadWrite, None);
    assert_ne!(k.id, k2.id);
    assert_ne!(secret, s2);
}

#[test]
fn scopes_and_revocation() {
    let admin = key(ApiKeyScope::Admin);
    assert!(admin.can_perform_operation("admin.users"));
    let rw = key(ApiKeyScope::ReadWrite);
    assert!(!rw.can_perform_operation("admin.users"));
    assert!(rw.can_perform_operation("models.create"));
    let mut ro = key(ApiKeyScope::ReadOnly);
    assert!(ro.can_perform_operation("models.get.one"));
    assert!(ro.can_perform_operation("models.list"));
    assert!(!ro.can_perform_operation("models.create"));
    assert!(ro.is_valid_at(0));
    ro.expires_at = Some(10);
    assert!(ro.is_valid_at(9));
    assert!(!ro.is_valid_at(10));
    ro.revoke();
    assert_eq!(ro.status, ApiKeyStatus::Revoked);
    assert!(!ro.is_valid_at(0));
}

#[test]
fn metadata_mirrors_the_key() {
    let k = key(ApiKeyScope::Admin);
    let m = ApiKeyMetadata::from(&k);
    assert_eq!(m.id, k.id);
    assert_eq!(m.name, k.name);
    assert_eq!(m.scope, k.scope);
    assert_eq!(m.created_at, k.created_at);
}

#[test]
fn error_responses() {
    assert_eq!(ApiKeyError::Missing.status_code(), 401);
    assert_eq!(ApiKeyError::Missing.error_code(), "missing_api_key");
    assert!(ApiKeyError::Missing.details().is_some());
    assert_eq!(ApiKeyError::IpNotAllowed.status_code(), 403);
    assert_eq!(ApiKeyError::RateLimitExceeded.status_code(), 429);
    assert_eq!(ApiKeyError::RateLimitExceeded.message(), "Rate limit exceeded for this API key");
    assert!(ApiKeyError::Expired.details().is_none());
}

#[test]
fn create_api_key_respects_the_limit() {
    let mut a = Account::new("0xabc".to_string());
    for _ in 0..5 {
        let (meta, secret) = create_api_key(&mut a, "k".to_string(), ApiKeyScope::ReadOnly, None).ok().unwrap();
        assert!(a.get_api_key(&meta.id).is_some());
        assert_eq!(a.get_api_key_by_secret(&secret).map(|k| k.id.clone()), Some(meta.id.clone()));
    }
    let err = create_api_key(&mut a, "k".to_string(), ApiKeyScope::ReadOnly, None).err().unwrap();
    assert_eq!(err, "API key limit reached (5/5)");
    assert_eq!(a.api_keys.len(), 5);
}

#[test]
fn rate_limit_config_per_tier() {
    let c = RateLimitConfig::for_subscription_tier(&SubscriptionTier::Free);
    assert_eq!((c.requests_per_minute, c.requests_per_hour, c.requests_per_day), (30, 500, 5000));
    let c = RateLimitConfig::for_subscription_tier(&SubscriptionTier::PowerPlus);
    assert_eq!((c.requests_per_minute, c.requests_per_hour, c.requests_per_day), (600, 25000, 250000));
}

#[test]
fn minute_limit_is_enforced() {
    let mut limiter = ApiKeyRateLimiter::new();
    for i in 0..30u32 {
        match limiter.check_rate_limit("key", &SubscriptionTier::Free) {
            RateLimitCheckResult::Allowed { remaining_minute, remaining_hour, remaining_day } => {
                assert_eq!(remaining_minute, 29 - i);
                assert_eq!(remaining_hour, 499 - i);
                assert_eq!(remaining_day, 4999 - i);
            }
            other => panic!("unexpected {:?}", other),
        }
    }
    let r = limiter.check_rate_limit("key", &SubscriptionTier::Free);
    assert!(matches!(r, RateLimitCheckResult::ExceededPerMinute { current: 30, limit: 30, reset_after } if reset_after <= 60));
    assert!(is_rate_limited(&r));
    assert!(matches!(limiter.check_rate_limit("other", &SubscriptionTier::Free), RateLimitCheckResult::Allowed { .. }));
    assert_eq!(limiter.len(), 2);
    limiter.cleanup_expired();
    assert_eq!(limiter.len(), 2);
}

#[test]
fn entry_windows_reset_when_expired() {
    let now = std::time::Instant::now();
    let mut e = RateLimiterEntry::new_at("k".to_string(), now);
    let config = RateLimitConfig { requests_per_minute: 1, requests_per_hour: 10, requests_per_day: 10 };
    assert!(matches!(e.check_at(&config, now, 0, 0, 0), RateLimitCheckResult::Allowed { remaining_minute: 0, .. }));
    assert!(matches!(e.check_at(&config, now, 5_000_000_000, 0, 0), RateLimitCheckResult::ExceededPerMinute { current: 1, limit: 1, reset_after: 55 }));
    assert!(matches!(e.check_at(&config, now, 61_000_000_000, 0, 0), RateLimitCheckResult::Allowed { remaining_minute: 0, remaining_hour: 8, .. }));
}

#[test]
fn rate_limit_headers() {
    let h = get_rate_limit_headers(&RateLimitCheckResult::Allowed { remaining_minute: 5, remaining_hour: 6, remaining_day: 7 });
    assert_eq!(h.get("X-RateLimit-Remaining-Minute"), Some("5"));
    assert_eq!(h.get("X-RateLimit-Limit-Day"), Some("7"));
    assert_eq!(h.pairs().len(), 6);
    let h = get_rate_limit_headers(&RateLimitCheckResult::ExceededPerHour { current: 500, limit: 500, reset_after: 42 });
    assert_eq!(h.get("X-RateLimit-Limit-Hour"), Some("500"));
    assert_eq!(h.get("X-RateLimit-Remaining-Hour"), Some("0"));
    assert_eq!(h.get("Retry-After"), Some("42"));
    assert_eq!(h.get("X-RateLimit-Reset"), Some("42"));
    assert_eq!(h.pairs().len(), 4);
}

fn event(key: &str, account: &str, ts: i64) -> ApiKeyEvent {
    let mut e = ApiKeyEvent::new_creation(key.to_string(), account.to_string(), None, None);
    e.timestamp = ts;
    e
}

#[test]
fn audit_log_keeps_the_most_recent_events() {
    let mut log = ApiKeyAuditLog::new();
    for i in 0..(MAX_EVENTS_PER_KEY as i64 + 5) {
        log.record(event("k1", "a1", i));
    }
    let events = log.get_events_for_key("k1");
    assert_eq!(events.len(), MAX_EVENTS_PER_KEY);
    assert_eq!(events[0].timestamp, 5);
    assert_eq!(events.last().unwrap().timestamp, MAX_EVENTS_PER_KEY as i64 + 4);
    assert!(log.get_events_for_key("k2").is_empty());
}

#[test]
fn audit_log_queries() {
    let mut log = ApiKeyAuditLog::new();
    log.record(event("k1", "a1", 10));
    log.record(event("k2", "a2", 30));
    log.record(event("k2", "a1", 20));
    log.record(ApiKeyEvent::new_usage("k1".to_string(), "a1".to_string(), "/x".to_string(), "GET".to_string(), 200, None, None, false));
    let for_a1 = log.get_events_for_account("a1");
    assert_eq!(for_a1.len(), 3);
    assert!(for_a1.windows(2).all(|w| w[0].timestamp >= w[1].timestamp));
    let all = log.get_all_events(Some(2), Some(1), None);
    assert_eq!(all.len(), 2);
    assert_eq!(all[0].timestamp, 30);
    assert_eq!(all[1].timestamp, 20);
    assert!(log.get_all_events(None, Some(9), None).is_empty());
    assert_eq!(log.get_all_events(None, None, Some("a2")).len(), 1);
    assert_eq!(log.get_usage_count("k1"), 1);
    assert_eq!(log.get_usage_count("k2"), 0);
    assert!(matches!(log.get_events_for_key("k1")[1].event_type, ApiKeyEventType::Used { status_code: 200, .. }));
}

#[test]
fn request_key_and_address_extraction() {
    assert_eq!(extract_api_key(Some("abc"), Some("Bearer xyz")), Some("abc"));
    assert_eq!(extract_api_key(None, Some("Bearer xyz")), Some("xyz"));
    assert_eq!(extract_api_key(None, Some("Basic xyz")), None);
    assert_eq!(extract_api_key(None, None), None);
    assert_eq!(client_ip(Some(" 10.0.0.1 , 10.0.0.2"), Some("1.1.1.1".to_string())), Some("10.0.0.1".to_string()));
    assert_eq!(client_ip(None, Some("1.1.1.1".to_string())), Some("1.1.1.1".to_string()));
    assert!(bypasses_auth(true, "/agents", false));
    assert!(!bypasses_auth(false, "/agents", false));
    assert!(bypasses_auth(false, "/secret", true));
    assert!(bypasses_auth(true, "/models/x", false));
    assert!(!bypasses_auth(true, "/billing", false));
}

#[test]
fn keys_are_found_across_accounts() {
    let mut a = Account::new("0xa".to_string());
    let mut b = Account::new("0xb".to_string());
    let (_, secret_a) = create_api_key(&mut a, "ka".to_string(), ApiKeyScope::Admin, None).ok().unwrap();
    let (meta_b, secret_b) = create_api_key(&mut b, "kb".to_string(), ApiKeyScope::Admin, None).ok().unwrap();
    let accounts = vec![a, b];
    let (i, k) = find_api_key_at(&accounts, &secret_b, None, 0).unwrap();
    assert_eq!(i, 1);
    assert_eq!(k.id, meta_b.id);
    assert!(find_api_key_at(&accounts, &secret_a, Some("1.2.3.4"), 0).is_some());
    assert!(find_api_key_at(&accounts, "sk_nothing", None, 0).is_none());
    assert!(find_api_key_at(&accounts, "nounderscore", None, 0).is_none());
}

#[test]
fn stale_entries_are_dropped() {
    let mut limiter = ApiKeyRateLimiter::new();
    limiter.check_rate_limit("a", &SubscriptionTier::Free);
    limiter.check_rate_limit("b", &SubscriptionTier::Free);
    limiter.retain_fresh(&vec![86_399_999_999_999, 86_400_000_000_000]);
    assert_eq!(limiter.len(), 1);
    assert!(matches!(limiter.check_rate_limit("a", &SubscriptionTier::Free), RateLimitCheckResult::Allowed { remaining_minute: 28, .. }));
    assert!(matches!(limiter.check_rate_limit("b", &SubscriptionTier::Free), RateLimitCheckResult::Allowed { remaining_minute: 29, .. }));
}

#[test]
fn parse_through_from_str() {
    assert_eq!(form_state::auth::UserRole::from_str("ADMIN"), Ok(form_state::auth::UserRole::Admin));
    assert_eq!(form_state::auth::UserRole::from_str("nobody"), Err(()));
    assert_eq!(form_state::helpers::agent_request::MemoryType::from_str("Qdrant"), Ok(form_state::helpers::agent_request::MemoryType::Qdrant));
}
