//! API keys: their scopes and status, rate limits and audit trail.

use vstd::prelude::*;
use crate::clock::{utc_now_secs, time_ok};
use crate::text::{concat, seq_starts_with, starts_with, str_eq};
use crate::accounts::{Account, spec_max_api_keys, spec_key_limit_message};

pub mod rate_limiter;
pub mod middleware;
pub mod audit;

pub use self::rate_limiter::{ApiKeyRateLimiter, RateLimitCheckResult, get_rate_limit_headers};

verus! {

/// The status of an API key.
#[derive(Debug, Clone, Copy, PartialEq, Eq, Structural)]
pub enum ApiKeyStatus {
    Active,
    Revoked,
    Expired,
}

/// What an API key may do.
#[derive(Debug, Clone, Copy, PartialEq, Eq, Structural)]
pub enum ApiKeyScope {
    ReadOnly,
    ReadWrite,
    Admin,
}

/// An API key of an account; times are Unix seconds.
#[derive(Debug, Clone)]
pub struct ApiKey {
    pub id: String,
    pub name: String,
    pub account_id: String,
    pub hashed_secret: String,
    pub scope: ApiKeyScope,
    pub status: ApiKeyStatus,
    pub created_at: i64,
    pub expires_at: Option<i64>,
    pub description: Option<String>,
}

/// What may be shown of an API key: everything but its owner and secret.
#[derive(Debug, Clone)]
pub struct ApiKeyMetadata {
    pub id: String,
    pub name: String,
    pub scope: ApiKeyScope,
    pub status: ApiKeyStatus,
    pub created_at: i64,
    pub expires_at: Option<i64>,
    pub description: Option<String>,
}

/// Why an API key was refused.
#[derive(Debug, Clone, Copy, PartialEq, Eq, Structural)]
pub enum ApiKeyError {
    Missing,
    InvalidFormat,
    NotFound,
    Revoked,
    Expired,
    InsufficientPermissions,
    IpNotAllowed,
    RateLimitExceeded,
}

/// A change to the API keys of an account.
#[derive(Debug, Clone)]
pub enum ApiKeyOp {
    Create(ApiKey),
    Update(ApiKey),
    Revoke(String),
    Delete(String),
}

/// `c` is a lowercase hexadecimal digit.
pub open spec fn is_lower_hex(c: char) -> bool {
    ('0' <= c && c <= '9') || ('a' <= c && c <= 'f')
}

/// `s` is a version 4 UUID in its hyphenated lowercase form
/// (`xxxxxxxx-xxxx-4xxx-yxxx-xxxxxxxxxxxx`).
pub open spec fn is_uuid_v4_text(s: Seq<char>) -> bool {
    &&& s.len() == 36
    &&& forall|i: int| 0 <= i < 36 ==> if i == 8 || i == 13 || i == 18 || i == 23 {
        #[trigger] s[i] == '-'
    } else {
        is_lower_hex(s[i])
    }
    &&& s[14] == '4'
}

/// A random version 4 UUID, from `uuid::Uuid::new_v4`, in its hyphenated
/// lowercase form (`Display`). Which one is left to chance.
#[verifier::external_body]
pub(crate) fn new_uuid_v4() -> (r: String)
    ensures
        is_uuid_v4_text(r@),
{
    uuid::Uuid::new_v4().to_string()
}

/// The stored form of a key's secret.
pub open spec fn spec_hashed(secret: Seq<char>) -> Seq<char> {
    "hashed_"@ + secret
}

/// Whether a key may be used at `now`: it is active and not past its expiry.
pub open spec fn spec_key_valid_at(k: ApiKey, now: i64) -> bool {
    k.status == ApiKeyStatus::Active && match k.expires_at {
        Some(e) => now < e,
        None => true,
    }
}

/// Whether a key of `scope` may perform `operation`: an admin key anything,
/// a read-write key anything outside `admin.`, a read-only key only the
/// model listing and lookup operations.
pub open spec fn spec_scope_allows(scope: ApiKeyScope, operation: Seq<char>) -> bool {
    match scope {
        ApiKeyScope::Admin => true,
        ApiKeyScope::ReadWrite => !seq_starts_with(operation, "admin."@),
        ApiKeyScope::ReadOnly => seq_starts_with(operation, "models.get"@) || seq_starts_with(operation, "models.list"@),
    }
}

impl ApiKey {
    /// `key` is a new active key, created at `now`, whose id and secret
    /// (`secret`) are made of two UUIDs.
    pub open spec fn spec_new_key(key: ApiKey, secret: Seq<char>, name: Seq<char>, account_id: Seq<char>,
        scope: ApiKeyScope, description: Option<String>, now: i64) -> bool
    {
        &&& exists|u: Seq<char>| is_uuid_v4_text(u) && key.id@ == "key_"@ + u
        &&& exists|u: Seq<char>| is_uuid_v4_text(u) && secret == "sk_"@ + u
        &&& key.hashed_secret@ == spec_hashed(secret)
        &&& key.name@ == name
        &&& key.account_id@ == account_id
        &&& key.scope == scope
        &&& key.status == ApiKeyStatus::Active
        &&& key.created_at == now
        &&& key.expires_at is None
        &&& key.description == description
    }

    /// Creates a new active key with a random id and secret; returns the key
    /// and its secret, which is stored only in hashed form.
    pub fn new(name: String, account_id: String, scope: ApiKeyScope, description: Option<String>) -> (r: (Self, String))
        ensures
            time_ok(r.0.created_at),
            ApiKey::spec_new_key(r.0, r.1@, name@, account_id@, scope, description, r.0.created_at),
    {
        let a = new_uuid_v4();
        let id = concat("key_", a.as_str());
        let b = new_uuid_v4();
        let secret = concat("sk_", b.as_str());
        let hashed_secret = concat("hashed_", secret.as_str());
        let now = utc_now_secs();
        (
            ApiKey {
                id,
                name,
                account_id,
                hashed_secret,
                scope,
                status: ApiKeyStatus::Active,
                created_at: now,
                expires_at: None,
                description,
            },
            secret,
        )
    }

    /// Whether the key may be used at `now`.
    pub fn is_valid_at(&self, now: i64) -> (r: bool)
        ensures
            r == spec_key_valid_at(*self, now),
    {
        match self.status {
            ApiKeyStatus::Active => match self.expires_at {
                Some(expires_at) => now < expires_at,
                None => true,
            },
            _ => false,
        }
    }

    /// Whether the key may be used now: it is active and not expired.
    pub fn is_valid(&self) -> (r: bool)
        ensures
            exists|now: i64| time_ok(now) && r == spec_key_valid_at(*self, now),
    {
        self.is_valid_at(utc_now_secs())
    }

    /// Whether the key may be used from `ip`: keys carry no address
    /// restrictions, so from any.
    pub fn is_allowed_from_ip(&self, ip: &str) -> (r: bool)
        ensures
            r,
    {
        true
    }

    /// Whether the key's scope allows `operation`.
    pub fn can_perform_operation(&self, operation: &str) -> (r: bool)
        ensures
            r == spec_scope_allows(self.scope, operation@),
    {
        match self.scope {
            ApiKeyScope::Admin => true,
            ApiKeyScope::ReadWrite => !starts_with(operation, "admin."),
            ApiKeyScope::ReadOnly => starts_with(operation, "models.get") || starts_with(operation, "models.list"),
        }
    }

    /// Whether `full_key` is the key's secret.
    pub fn verify_secret(&self, full_key: &str) -> (r: bool)
        ensures
            r == (self.hashed_secret@ == spec_hashed(full_key@)),
    {
        let expected_secret = concat("hashed_", full_key);
        str_eq(self.hashed_secret.as_str(), expected_secret.as_str())
    }

    /// Revokes the key; nothing else changes.
    pub fn revoke(&mut self)
        ensures
            final(self).status == ApiKeyStatus::Revoked,
            final(self).id == old(self).id,
            final(self).name == old(self).name,
            final(self).account_id == old(self).account_id,
            final(self).hashed_secret == old(self).hashed_secret,
            final(self).scope == old(self).scope,
            final(self).created_at == old(self).created_at,
            final(self).expires_at == old(self).expires_at,
            final(self).description == old(self).description,
    {
        self.status = ApiKeyStatus::Revoked;
    }

    /// A copy of the key.
    pub fn copy(&self) -> (r: Self)
        ensures
            r == *self,
    {
        ApiKey {
            id: self.id.clone(),
            name: self.name.clone(),
            account_id: self.account_id.clone(),
            hashed_secret: self.hashed_secret.clone(),
            scope: self.scope,
            status: self.status,
            created_at: self.created_at,
            expires_at: self.expires_at,
            description: match &self.description {
                Some(d) => Some(d.clone()),
                None => None,
            },
        }
    }
}

/// The metadata of a key.
pub open spec fn spec_metadata(key: ApiKey) -> ApiKeyMetadata {
    ApiKeyMetadata {
        id: key.id,
        name: key.name,
        scope: key.scope,
        status: key.status,
        created_at: key.created_at,
        expires_at: key.expires_at,
        description: key.description,
    }
}

impl ApiKeyMetadata {
    /// The metadata of `key`.
    pub fn from_key(key: &ApiKey) -> (r: Self)
        ensures
            r == spec_metadata(*key),
    {
        ApiKeyMetadata {
            id: key.id.clone(),
            name: key.name.clone(),
            scope: key.scope,
            status: key.status,
            created_at: key.created_at,
            expires_at: key.expires_at,
            description: match &key.description {
                Some(d) => Some(d.clone()),
                None => None,
            },
        }
    }
}

impl<'a> From<&'a ApiKey> for ApiKeyMetadata {
    fn from(key: &'a ApiKey) -> (r: Self) {
        ApiKeyMetadata::from_key(key)
    }
}

impl<'a> vstd::std_specs::convert::FromSpecImpl<&'a ApiKey> for ApiKeyMetadata {
    open spec fn obeys_from_spec() -> bool {
        true
    }

    open spec fn from_spec(key: &'a ApiKey) -> Self {
        spec_metadata(*key)
    }
}

/// The HTTP status of the response to a refused key.
pub open spec fn spec_api_key_status(e: ApiKeyError) -> u16 {
    match e {
        ApiKeyError::InsufficientPermissions | ApiKeyError::IpNotAllowed => 403,
        ApiKeyError::RateLimitExceeded => 429,
        _ => 401,
    }
}

/// The error code of the response to a refused key.
pub open spec fn spec_api_key_error_code(e: ApiKeyError) -> Seq<char> {
    match e {
        ApiKeyError::Missing => "missing_api_key"@,
        ApiKeyError::InvalidFormat => "invalid_api_key_format"@,
        ApiKeyError::NotFound => "api_key_not_found"@,
        ApiKeyError::Revoked => "api_key_revoked"@,
        ApiKeyError::Expired => "api_key_expired"@,
        ApiKeyError::InsufficientPermissions => "insufficient_permissions"@,
        ApiKeyError::IpNotAllowed => "ip_not_allowed"@,
        ApiKeyError::RateLimitExceeded => "rate_limit_exceeded"@,
    }
}

/// The message of the response to a refused key.
pub open spec fn spec_api_key_message(e: ApiKeyError) -> Seq<char> {
    match e {
        ApiKeyError::Missing => "API key is required but was not provided"@,
        ApiKeyError::InvalidFormat => "The provided API key is invalid"@,
        ApiKeyError::NotFound => "The provided API key is not recognized"@,
        ApiKeyError::Revoked => "The provided API key has been revoked"@,
        ApiKeyError::Expired => "The provided API key has expired"@,
        ApiKeyError::InsufficientPermissions => "The provided API key does not have permission for this operation"@,
        ApiKeyError::IpNotAllowed => "Your IP address is not allowed to use this API key"@,
        ApiKeyError::RateLimitExceeded => "Rate limit exceeded for this API key"@,
    }
}

impl ApiKeyError {
    /// The HTTP status of the response.
    pub fn status_code(&self) -> (r: u16)
        ensures
            r == spec_api_key_status(*self),
    {
        match self {
            ApiKeyError::InsufficientPermissions | ApiKeyError::IpNotAllowed => 403,
            ApiKeyError::RateLimitExceeded => 429,
            _ => 401,
        }
    }

    /// The error code of the response body.
    pub fn error_code(&self) -> (r: &'static str)
        ensures
            r@ == spec_api_key_error_code(*self),
    {
        match self {
            ApiKeyError::Missing => "missing_api_key",
            ApiKeyError::InvalidFormat => "invalid_api_key_format",
            ApiKeyError::NotFound => "api_key_not_found",
            ApiKeyError::Revoked => "api_key_revoked",
            ApiKeyError::Expired => "api_key_expired",
            ApiKeyError::InsufficientPermissions => "insufficient_permissions",
            ApiKeyError::IpNotAllowed => "ip_not_allowed",
            ApiKeyError::RateLimitExceeded => "rate_limit_exceeded",
        }
    }

    /// The message of the response body.
    pub fn message(&self) -> (r: &'static str)
        ensures
            r@ == spec_api_key_message(*self),
    {
        match self {
            ApiKeyError::Missing => "API key is required but was not provided",
            ApiKeyError::InvalidFormat => "The provided API key is invalid",
            ApiKeyError::NotFound => "The provided API key is not recognized",
            ApiKeyError::Revoked => "The provided API key has been revoked",
            ApiKeyError::Expired => "The provided API key has expired",
            ApiKeyError::InsufficientPermissions => "The provided API key does not have permission for this operation",
            ApiKeyError::IpNotAllowed => "Your IP address is not allowed to use this API key",
            ApiKeyError::RateLimitExceeded => "Rate limit exceeded for this API key",
        }
    }

    /// The details of the response body, where it has any.
    pub fn details(&self) -> (r: Option<&'static str>)
        ensures
            match *self {
                ApiKeyError::Missing => r matches Some(d) && d@ == "Include your API key via the X-API-Key header or Bearer token"@,
                _ => r is None,
            },
    {
        match self {
            ApiKeyError::Missing => Some("Include your API key via the X-API-Key header or Bearer token"),
            _ => None,
        }
    }
}

/// Create a new API key for an account: a fresh key owned by the account's
/// address, added to it unless it already holds as many keys as it may.
/// Returns the key's metadata and its secret.
pub fn create_api_key(
    account: &mut Account,
    name: String,
    scope: ApiKeyScope,
    description: Option<String>,
) -> (r: Result<(ApiKeyMetadata, String), String>)
    ensures
        old(account).api_keys.spec_len() as u32 >= spec_max_api_keys(*old(account)) ==> {
            &&& r matches Err(m) && m@ == spec_key_limit_message(old(account).api_keys.spec_len() as u32, spec_max_api_keys(*old(account)))
            &&& *final(account) == *old(account)
        },
        (old(account).api_keys.spec_len() as u32) < spec_max_api_keys(*old(account)) ==> r is Ok
            && exists|key: ApiKey| {
                &&& #[trigger] ApiKey::spec_new_key(key, r.unwrap().1@, name@, old(account).address@, scope, description, key.created_at)
                &&& time_ok(key.created_at)
                &&& r.unwrap().0 == spec_metadata(key)
                &&& final(account).api_keys.spec_get(key.id@) == Some(key)
                &&& forall|k: Seq<char>| k != key.id@ ==> #[trigger] final(account).api_keys.spec_get(k)
                    == old(account).api_keys.spec_get(k)
                &&& final(account).same_except(*old(account), false, false, false, false, false, true, false)
            },
{
    let (api_key, secret) = ApiKey::new(name, account.address.clone(), scope, description);
    let metadata = ApiKeyMetadata::from_key(&api_key);
    let ghost key = api_key;
    match account.add_api_key(api_key) {
        Ok(()) => {
            let res: Result<(ApiKeyMetadata, String), String> = Ok((metadata, secret));
            proof {
                assert(ApiKey::spec_new_key(key, res.unwrap().1@, name@, old(account).address@, scope, description, key.created_at));
                assert(exists|kk: ApiKey| #[trigger] ApiKey::spec_new_key(kk, res.unwrap().1@, name@, old(account).address@, scope, description, kk.created_at));
            }
            res
        },
        Err(e) => Err(e),
    }
}


/// A newly created key verifies its own secret and may be used at any
/// time until it is revoked.
pub proof fn lemma_new_key_usable(key: ApiKey, secret: Seq<char>, name: Seq<char>, account_id: Seq<char>,
    scope: ApiKeyScope, description: Option<String>, now: i64, later: i64)
    requires
        ApiKey::spec_new_key(key, secret, name, account_id, scope, description, now),
    ensures
        key.hashed_secret@ == spec_hashed(secret),
        spec_key_valid_at(key, later),
{
}

/// A revoked or expired-status key may never be used.
pub proof fn lemma_inactive_key_unusable(key: ApiKey, now: i64)
    requires
        key.status != ApiKeyStatus::Active,
    ensures
        !spec_key_valid_at(key, now),
{
}

/// Scopes are ordered: what a read-only key may do a read-write key may,
/// and what a read-write key may do an admin key may.
pub proof fn lemma_scope_order(operation: Seq<char>)
    ensures
        spec_scope_allows(ApiKeyScope::ReadOnly, operation) ==> spec_scope_allows(ApiKeyScope::ReadWrite, operation),
        spec_scope_allows(ApiKeyScope::ReadWrite, operation) ==> spec_scope_allows(ApiKeyScope::Admin, operation),
{
    reveal_strlit("admin.");
    reveal_strlit("models.get");
    reveal_strlit("models.list");
    if spec_scope_allows(ApiKeyScope::ReadOnly, operation) {
        assert(operation[0] == 'm') by {
            if seq_starts_with(operation, "models.get"@) {
                assert(operation.subrange(0, 10)[0] == operation[0]);
            } else {
                assert(operation.subrange(0, 11)[0] == operation[0]);
            }
        }
        if seq_starts_with(operation, "admin."@) {
            assert(operation.subrange(0, 6)[0] == operation[0]);
        }
    }
}

} // verus!
