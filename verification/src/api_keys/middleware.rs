//! The decisions of API key authentication: which requests pass without a
//! key, where the key and the client's address are read from, which account
//! a key belongs to, and when the rate limit refuses a request.

use vstd::prelude::*;
use crate::accounts::{Account, spec_key_by_secret};
use crate::api::{is_public_endpoint, spec_is_public, spec_first_forwarded, first_forwarded, opt_seq};
use crate::api_keys::{ApiKey, spec_key_valid_at};
use crate::api_keys::rate_limiter::{RateLimitCheckResult, ApiKeyRateLimiter, spec_check_result, spec_counts_after, spec_tier_limits, entry_counts, effective_ages};
use crate::clock::instant_now;
use std::time::Instant;
use crate::billing::SubscriptionTier;
use crate::clock::{utc_now_secs, time_ok};
use crate::text::{seq_starts_with, starts_with, str_eq, suffix_from};

verus! {

/// The listing endpoints that a GET reaches without a key.
pub open spec fn spec_direct_listing(path: Seq<char>) -> bool {
    path == "/agents"@ || path == "/instances"@ || path == "/accounts"@ || path == "/models"@
}

/// A request passes without a key when it is a GET of a listing endpoint,
/// comes from this machine, or is a GET of a public endpoint.
pub open spec fn spec_bypasses_auth(is_get: bool, path: Seq<char>, is_localhost: bool) -> bool {
    (is_get && spec_direct_listing(path)) || is_localhost || (is_get && spec_is_public(path))
}

/// Whether a request passes without an API key.
pub fn bypasses_auth(is_get: bool, path: &str, is_localhost: bool) -> (r: bool)
    ensures
        r == spec_bypasses_auth(is_get, path@, is_localhost),
{
    if is_get && (str_eq(path, "/agents") || str_eq(path, "/instances") || str_eq(path, "/accounts")
        || str_eq(path, "/models")) {
        return true;
    }
    if is_localhost {
        return true;
    }
    is_get && is_public_endpoint(path)
}

/// The API key of a request: the `X-API-Key` header, else the token of a
/// `Bearer` authorization header.
pub open spec fn spec_api_key_of(x_api_key: Option<Seq<char>>, authorization: Option<Seq<char>>) -> Option<Seq<char>> {
    match x_api_key {
        Some(k) => Some(k),
        None => match authorization {
            Some(a) => if seq_starts_with(a, "Bearer "@) { Some(a.subrange(7, a.len() as int)) } else { None },
            None => None,
        },
    }
}

/// Extract the API key from the `X-API-Key` header or the `Authorization`
/// header (each absent where missing or not text).
pub fn extract_api_key<'a>(x_api_key: Option<&'a str>, authorization: Option<&'a str>) -> (r: Option<&'a str>)
    ensures
        opt_seq(r) == spec_api_key_of(opt_seq(x_api_key), opt_seq(authorization)),
{
    if let Some(k) = x_api_key {
        return Some(k);
    }
    if let Some(auth_str) = authorization {
        if starts_with(auth_str, "Bearer ") {
            proof {
                reveal_strlit("Bearer ");
            }
            return Some(suffix_from(auth_str, 7));
        }
    }
    None
}

/// The client's address: the first `X-Forwarded-For` address if the header
/// is there, else the connection's address.
pub open spec fn spec_client_ip(forwarded_for: Option<Seq<char>>, conn_ip: Option<Seq<char>>) -> Option<Seq<char>> {
    match forwarded_for {
        Some(f) => Some(spec_first_forwarded(f)),
        None => conn_ip,
    }
}

/// Get the client's address from the `X-Forwarded-For` header (absent where
/// missing or not text) or the connection's address.
pub fn client_ip(forwarded_for: Option<&str>, conn_ip: Option<String>) -> (r: Option<String>)
    ensures
        crate::clock::opt_string_view(r) == spec_client_ip(opt_seq(forwarded_for), crate::clock::opt_string_view(conn_ip)),
{
    match forwarded_for {
        Some(f) => Some(first_forwarded(f)),
        None => conn_ip,
    }
}

/// The account `a` has a key for `secret` that may be used at `now`.
pub open spec fn spec_usable_key(a: Account, secret: Seq<char>, now: i64) -> bool {
    match spec_key_by_secret(a, secret) {
        Some(k) => spec_key_valid_at(k, now),
        None => false,
    }
}

/// Finds, among `accounts` in order, the first whose key for `secret` may
/// be used at `now`; returns its position and the key.
pub fn find_api_key_at(accounts: &[Account], secret: &str, client_ip: Option<&str>, now: i64) -> (r: Option<(usize, ApiKey)>)
    ensures
        match r {
            Some((i, k)) => {
                &&& i < accounts@.len()
                &&& spec_key_by_secret(accounts@[i as int], secret@) == Some(k)
                &&& spec_usable_key(accounts@[i as int], secret@, now)
                &&& forall|j: int| 0 <= j < i ==> !spec_usable_key(#[trigger] accounts@[j], secret@, now)
            },
            None => forall|j: int| 0 <= j < accounts@.len() ==> !spec_usable_key(#[trigger] accounts@[j], secret@, now),
        },
{
    let mut i: usize = 0;
    while i < accounts.len()
        invariant
            i <= accounts@.len(),
            forall|j: int| 0 <= j < i ==> !spec_usable_key(#[trigger] accounts@[j], secret@, now),
        decreases accounts@.len() - i,
    {
        if let Some(api_key) = accounts[i].get_api_key_by_secret(secret) {
            if api_key.is_valid_at(now) {
                let allowed = match client_ip {
                    Some(ip) => api_key.is_allowed_from_ip(ip),
                    None => true,
                };
                if allowed {
                    return Some((i, api_key.copy()));
                }
            }
        }
        i += 1;
    }
    None
}

/// Finds, among `accounts` in order, the first whose key for `secret` may
/// be used now.
pub fn find_api_key(accounts: &[Account], secret: &str, client_ip: Option<&str>) -> (r: Option<(usize, ApiKey)>)
    ensures
        exists|now: i64| time_ok(now) && match r {
            Some((i, k)) => {
                &&& i < accounts@.len()
                &&& spec_key_by_secret(accounts@[i as int], secret@) == Some(k)
                &&& spec_usable_key(accounts@[i as int], secret@, now)
                &&& forall|j: int| 0 <= j < i ==> !spec_usable_key(#[trigger] accounts@[j], secret@, now)
            },
            None => forall|j: int| 0 <= j < accounts@.len() ==> !spec_usable_key(#[trigger] accounts@[j], secret@, now),
        },
{
    find_api_key_at(accounts, secret, client_ip, utc_now_secs())
}

/// A request is refused by the rate limit unless its result allowed it.
pub fn is_rate_limited(result: &RateLimitCheckResult) -> (r: bool)
    ensures
        r == !(*result is Allowed),
{
    match result {
        RateLimitCheckResult::Allowed { .. } => false,
        _ => true,
    }
}


/// The tier whose rate limits apply to an account: its subscription's, Free
/// without one.
pub open spec fn spec_account_tier(a: Account) -> SubscriptionTier {
    match a.subscription {
        Some(s) => s.tier,
        None => SubscriptionTier::Free,
    }
}

/// The outcome of API key authentication.
#[derive(Debug)]
pub enum ApiKeyAuthOutcome {
    /// The request needs no key
    Bypass,
    /// No key, or no usable key, was given (status 401)
    Unauthorized,
    /// The key of the account at `account_index` was found but the rate
    /// limit refuses the request (status 429)
    RateLimited { account_index: usize, key: ApiKey, result: RateLimitCheckResult, client_ip: Option<String> },
    /// The key of the account at `account_index` is accepted
    Accepted { account_index: usize, key: ApiKey, result: RateLimitCheckResult, client_ip: Option<String> },
}

/// `key` of the account at `i` is the first usable key for `secret` at
/// `now`, and `result` is the rate limit's answer for it with its windows
/// `ages` old, counted in `after`.
pub open spec fn spec_key_admitted(before: ApiKeyRateLimiter, after: ApiKeyRateLimiter, accounts: Seq<Account>, secret: Seq<char>,
    now: i64, ages: (u128, u128, u128), i: usize, key: ApiKey, result: RateLimitCheckResult) -> bool
{
    &&& i < accounts.len()
    &&& spec_key_by_secret(accounts[i as int], secret) == Some(key)
    &&& spec_usable_key(accounts[i as int], secret, now)
    &&& forall|j: int| 0 <= j < i ==> !spec_usable_key(#[trigger] accounts[j], secret, now)
    &&& result == spec_check_result(entry_counts(before.spec_entry(key.id@)),
        spec_tier_limits(spec_account_tier(accounts[i as int])), effective_ages(before.spec_entry(key.id@), ages))
    &&& after.spec_entry(key.id@) is Some
    &&& after.spec_entry(key.id@).unwrap().counts() == spec_counts_after(entry_counts(before.spec_entry(key.id@)),
        spec_tier_limits(spec_account_tier(accounts[i as int])), effective_ages(before.spec_entry(key.id@), ages))
    &&& forall|k: Seq<char>| k != key.id@ ==> #[trigger] after.spec_entry(k) == before.spec_entry(k)
}

/// The outcome of authenticating a request at `now` (Unix seconds), the
/// found key's windows being `ages` old: a request that needs no key
/// passes; one without a key, or whose key no account can use at `now`, is
/// unauthorized; otherwise the first account with a usable key is found,
/// its key's rate limit is counted, and the request is accepted exactly
/// when the limit allows it.
pub open spec fn spec_api_key_auth(before: ApiKeyRateLimiter, after: ApiKeyRateLimiter, accounts: Seq<Account>, is_get: bool,
    path: Seq<char>, is_localhost: bool, x_api_key: Option<Seq<char>>, authorization: Option<Seq<char>>,
    forwarded_for: Option<Seq<char>>, conn_ip: Option<Seq<char>>, now: i64, ages: (u128, u128, u128), r: ApiKeyAuthOutcome) -> bool
{
    if spec_bypasses_auth(is_get, path, is_localhost) {
        r is Bypass && after == before
    } else {
        match spec_api_key_of(x_api_key, authorization) {
            None => r is Unauthorized && after == before,
            Some(secret) => if forall|j: int| 0 <= j < accounts.len() ==> !spec_usable_key(#[trigger] accounts[j], secret, now) {
                r is Unauthorized && after == before
            } else {
                match r {
                    ApiKeyAuthOutcome::Accepted { account_index, key, result, client_ip } =>
                        spec_key_admitted(before, after, accounts, secret, now, ages, account_index, key, result)
                        && result is Allowed
                        && crate::clock::opt_string_view(client_ip) == spec_client_ip(forwarded_for, conn_ip),
                    ApiKeyAuthOutcome::RateLimited { account_index, key, result, client_ip } =>
                        spec_key_admitted(before, after, accounts, secret, now, ages, account_index, key, result)
                        && !(result is Allowed)
                        && crate::clock::opt_string_view(client_ip) == spec_client_ip(forwarded_for, conn_ip),
                    _ => false,
                }
            },
        }
    }
}

/// Authenticates a request by its API key at `now` (Unix seconds), the
/// rate limit checked at `check_at` with the found key's windows `ages`
/// old.
pub fn authenticate_api_key_at(
    limiter: &mut ApiKeyRateLimiter,
    accounts: &[Account],
    is_get: bool,
    path: &str,
    is_localhost: bool,
    x_api_key: Option<&str>,
    authorization: Option<&str>,
    forwarded_for: Option<&str>,
    conn_ip: Option<String>,
    now: i64,
    check_at: Instant,
    ages: (u128, u128, u128),
) -> (r: ApiKeyAuthOutcome)
    ensures
        spec_api_key_auth(*old(limiter), *final(limiter), accounts@, is_get, path@, is_localhost, opt_seq(x_api_key),
            opt_seq(authorization), opt_seq(forwarded_for), crate::clock::opt_string_view(conn_ip), now, ages, r),
{
    if bypasses_auth(is_get, path, is_localhost) {
        return ApiKeyAuthOutcome::Bypass;
    }
    let ghost conn_v = crate::clock::opt_string_view(conn_ip);
    let ip = client_ip(forwarded_for, conn_ip);
    let secret = match extract_api_key(x_api_key, authorization) {
        Some(k) => k,
        None => {
            return ApiKeyAuthOutcome::Unauthorized;
        },
    };
    let ip_ref: Option<&str> = match &ip {
        Some(s) => Some(s.as_str()),
        None => None,
    };
    let (account_index, key) = match find_api_key_at(accounts, secret, ip_ref, now) {
        Some(found) => found,
        None => {
            return ApiKeyAuthOutcome::Unauthorized;
        },
    };
    let tier = match &accounts[account_index].subscription {
        Some(s) => s.tier,
        None => SubscriptionTier::Free,
    };
    let result = limiter.check_rate_limit_at(key.id.as_str(), &tier, check_at, ages);
    if is_rate_limited(&result) {
        ApiKeyAuthOutcome::RateLimited { account_index, key, result, client_ip: ip }
    } else {
        ApiKeyAuthOutcome::Accepted { account_index, key, result, client_ip: ip }
    }
}

/// Authenticates a request by its API key now: as `authenticate_api_key_at`
/// with the clocks' readings and the found key's window ages.
pub fn authenticate_api_key(
    limiter: &mut ApiKeyRateLimiter,
    accounts: &[Account],
    is_get: bool,
    path: &str,
    is_localhost: bool,
    x_api_key: Option<&str>,
    authorization: Option<&str>,
    forwarded_for: Option<&str>,
    conn_ip: Option<String>,
) -> (r: ApiKeyAuthOutcome)
    ensures
        exists|now: i64, ages: (u128, u128, u128)| time_ok(now) && #[trigger] spec_api_key_auth(*old(limiter), *final(limiter),
            accounts@, is_get, path@, is_localhost, opt_seq(x_api_key), opt_seq(authorization), opt_seq(forwarded_for),
            crate::clock::opt_string_view(conn_ip), now, ages, r),
{
    let now = utc_now_secs();
    let check_at = instant_now();
    let mut ages: (u128, u128, u128) = (0, 0, 0);
    if let Some(secret) = extract_api_key(x_api_key, authorization) {
        let client = match &conn_ip {
            Some(c) => client_ip(forwarded_for, Some(c.clone())),
            None => client_ip(forwarded_for, None),
        };
        let ip = match &client {
            Some(c) => Some(c.as_str()),
            None => None,
        };
        if let Some((_, key)) = find_api_key_at(accounts, secret, ip, now) {
            if let Some(a) = limiter.window_ages(key.id.as_str(), check_at) {
                ages = a;
            }
        }
    }
    authenticate_api_key_at(limiter, accounts, is_get, path, is_localhost, x_api_key, authorization, forwarded_for, conn_ip,
        now, check_at, ages)
}

} // verus!
