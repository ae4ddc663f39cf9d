//! The decisions of the API key handlers: creating, listing and revoking
//! keys, and the pages of their audit trail.

use vstd::prelude::*;
use crate::accounts::{Account, spec_max_api_keys, key_values};
use crate::api_keys::{ApiKey, ApiKeyMetadata, spec_key_valid_at, spec_metadata, spec_scope_allows};
use crate::api_keys::audit::{ApiKeyEvent, paginate, spec_page};
use crate::clock::{time_ok, utc_now_secs};
use crate::text::{concat, decimal, owned, u64_to_decimal};

verus! {

/// Request to revoke an API key.
#[derive(Debug, Clone)]
pub struct RevokeApiKeyRequest {
    /// Reason for revoking the API key
    pub reason: String,
}

/// Query parameters for pagination.
#[derive(Debug, Clone, Copy)]
pub struct PaginationParams {
    /// Maximum number of items to return
    pub limit: Option<usize>,
    /// Number of items to skip
    pub offset: Option<usize>,
}

/// Events per page of an audit trail when no limit is asked.
pub const DEFAULT_PAGE_LIMIT: usize = 100;

/// The number of keys of `a` that may be used at `now`.
pub open spec fn spec_active_key_count(a: Account, now: i64) -> nat {
    key_values(a.api_keys.spec_entries()).filter(|k: ApiKey| spec_key_valid_at(k, now)).len()
}

/// The refusal of a new key named `name` for `a` at `now`, if any: a name
/// must be given, and the keys in use must be fewer than the account may
/// hold.
pub open spec fn spec_create_key_refusal(a: Account, name: Seq<char>, now: i64) -> Option<(u16, Seq<char>)> {
    let count = spec_active_key_count(a, now) as u32;
    if name.len() == 0 {
        Some((400u16, "API key name cannot be empty"@))
    } else if count >= spec_max_api_keys(a) {
        Some((403u16, "API key limit reached ("@ + decimal(count as nat) + "/"@ + decimal(spec_max_api_keys(a) as nat) + ")"@))
    } else {
        None
    }
}

/// Checks a request for a new key named `name` on `account` at `now`.
pub fn create_key_check_at(account: &Account, name: &str, now: i64) -> (r: Option<(u16, String)>)
    ensures
        match (r, spec_create_key_refusal(*account, name@, now)) {
            (None, None) => true,
            (Some((s, m)), Some((t, n))) => s == t && m@ == n,
            _ => false,
        },
{
    if name.unicode_len() == 0 {
        return Some((400, owned("API key name cannot be empty")));
    }
    let max_allowed = account.max_allowed_api_keys();
    let current_count = account.list_active_api_keys_at(now).len() as u32;
    if current_count >= max_allowed {
        let a = u64_to_decimal(current_count as u64);
        let b = concat("API key limit reached (", a.as_str());
        let c = concat(b.as_str(), "/");
        let d = u64_to_decimal(max_allowed as u64);
        let e = concat(c.as_str(), d.as_str());
        return Some((403, concat(e.as_str(), ")")));
    }
    None
}

/// Checks a request for a new key named `name` on `account` now.
pub fn create_key_check(account: &Account, name: &str) -> (r: Option<(u16, String)>)
    ensures
        exists|now: i64| time_ok(now) && match (r, spec_create_key_refusal(*account, name@, now)) {
            (None, None) => true,
            (Some((s, m)), Some((t, n))) => s == t && m@ == n,
            _ => false,
        },
{
    create_key_check_at(account, name, utc_now_secs())
}

/// The metadata of all keys of an account, in order of key ID.
pub fn key_metadata_list(account: &Account) -> (r: Vec<ApiKeyMetadata>)
    ensures
        r@ == key_values(account.api_keys.spec_entries()).map_values(|k: ApiKey| spec_metadata(k)),
{
    let keys = account.list_all_api_keys();
    let ghost all = key_values(account.api_keys.spec_entries());
    let mut out: Vec<ApiKeyMetadata> = Vec::new();
    let mut i: usize = 0;
    while i < keys.len()
        invariant
            i <= keys@.len(),
            keys@.len() == account.api_keys.spec_len(),
            all == key_values(account.api_keys.spec_entries()),
            forall|j: int| 0 <= j < keys@.len() ==> *#[trigger] keys@[j] == account.api_keys.spec_entries()[j].1,
            out@ == all.take(i as int).map_values(|k: ApiKey| spec_metadata(k)),
        decreases keys@.len() - i,
    {
        let m = ApiKeyMetadata::from_key(keys[i]);
        out.push(m);
        proof {
            assert(all[i as int] == *keys@[i as int]);
            assert(out@ =~= all.take(i + 1).map_values(|k: ApiKey| spec_metadata(k)));
        }
        i += 1;
    }
    proof {
        assert(all.take(i as int) =~= all);
    }
    out
}

/// The refusal of a view of the audit trail of the key `api_key_id` by the
/// key `auth_key` of `account`, if any: the key's scope must allow
/// `api_keys.view`, and the viewed key must be the account's.
pub open spec fn spec_audit_view_refusal(auth_key: ApiKey, account: Account, api_key_id: Seq<char>) -> Option<Seq<char>> {
    if !spec_scope_allows(auth_key.scope, "api_keys.view"@) {
        Some("API key does not have permission to view API key audit logs"@)
    } else if account.api_keys.spec_get(api_key_id) is None {
        Some("You do not have permission to view audit logs for this API key"@)
    } else {
        None
    }
}

/// Checks a view of the audit trail of `api_key_id` (refusals are status 403).
pub fn audit_view_check(auth_key: &ApiKey, account: &Account, api_key_id: &str) -> (r: Option<&'static str>)
    ensures
        match (r, spec_audit_view_refusal(*auth_key, *account, api_key_id@)) {
            (None, None) => true,
            (Some(m), Some(n)) => m@ == n,
            _ => false,
        },
{
    if !auth_key.can_perform_operation("api_keys.view") {
        return Some("API key does not have permission to view API key audit logs");
    }
    if account.get_api_key(api_key_id).is_none() {
        return Some("You do not have permission to view audit logs for this API key");
    }
    None
}

/// A page of an account's audit trail: the events, the total, and whether
/// more follow.
pub fn audit_page(events: &Vec<ApiKeyEvent>, params: PaginationParams) -> (r: (Vec<ApiKeyEvent>, usize, bool))
    requires
        params.offset.unwrap_or(0) < events@.len() ==> params.offset.unwrap_or(0) + params.limit.unwrap_or(DEFAULT_PAGE_LIMIT) <= usize::MAX,
        params.offset.unwrap_or(0) + events@.len() <= usize::MAX,
    ensures
        r.0@ == spec_page(events@, params.offset.unwrap_or(0) as int, params.limit.unwrap_or(DEFAULT_PAGE_LIMIT) as int),
        r.1 == events@.len(),
        r.2 == (params.offset.unwrap_or(0) + r.0@.len() < events@.len()),
{
    let limit = match params.limit {
        Some(l) => l,
        None => DEFAULT_PAGE_LIMIT,
    };
    let offset = match params.offset {
        Some(o) => o,
        None => 0,
    };
    let page = paginate(events, Some(limit), Some(offset));
    let total = events.len();
    proof {
        if offset < events@.len() {
            assert(page@.len() <= events@.len() - offset);
        } else {
            assert(page@.len() == 0);
        }
    }
    let has_more = offset + page.len() < total;
    (page, total, has_more)
}

} // verus!
