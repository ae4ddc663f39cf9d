//! The cache of token signing keys by key ID: fetched keys replace the
//! cached ones of the same ID, and keys no longer published stay usable, so
//! that tokens signed before a key rotation still validate.

use vstd::prelude::*;
use crate::ordered::StrMap;
use crate::auth::config::AuthConfig;
use crate::clock::opt_string_view;
use crate::text::{concat, owned, seq_starts_with};

verus! {

/// The value that the last pair for `kid` in `s` holds, if any.
pub open spec fn last_for<V>(s: Seq<(String, V)>, kid: Seq<char>) -> Option<V>
    decreases s.len(),
{
    if s.len() == 0 {
        None
    } else if s.last().0@ == kid {
        Some(s.last().1)
    } else {
        last_for(s.drop_last(), kid)
    }
}

/// The decoded keys of a key set, by key ID, and how the last fetch went.
#[derive(Debug)]
pub struct KeyCache<V> {
    /// The decoded keys, by key ID
    pub keys: StrMap<V>,
    /// Whether a key set has been loaded
    pub loaded: bool,
    /// Whether the last fetch succeeded
    pub last_fetch_success: bool,
    /// Seconds from the last fetch attempt to the next scheduled refresh
    /// (0: due at once)
    pub refresh_delay_secs: u64,
}

/// Seconds until a failed fetch is tried again.
pub const FAILURE_RETRY_SECS: u64 = 30;

impl<V> KeyCache<V> {
    /// The key cached for `kid`, if any.
    pub open spec fn spec_key(&self, kid: Seq<char>) -> Option<V> {
        self.keys.spec_get(kid)
    }

    /// The number of cached keys.
    pub open spec fn spec_len(&self) -> nat {
        self.keys.spec_len()
    }

    /// An empty cache that has loaded nothing.
    pub fn new() -> (r: Self)
        ensures
            !r.loaded,
            !r.last_fetch_success,
            r.refresh_delay_secs == 0,
            r.spec_len() == 0,
            forall|k: Seq<char>| #[trigger] r.spec_key(k) is None,
    {
        KeyCache { keys: StrMap::new(), loaded: false, last_fetch_success: false, refresh_delay_secs: 0 }
    }

    /// Takes in the keys of a fetched key set (key ID and decoded key, in
    /// the set's order): each replaces the cached key of its ID, a later one
    /// an earlier one; cached keys of other IDs stay. The next refresh is
    /// scheduled `next_refresh_secs` seconds on.
    pub fn update(&mut self, fetched: Vec<(String, V)>, next_refresh_secs: u64)
        ensures
            final(self).loaded,
            final(self).last_fetch_success,
            final(self).refresh_delay_secs == next_refresh_secs,
            forall|k: Seq<char>| #[trigger] final(self).spec_key(k) == match last_for(fetched@, k) {
                Some(v) => Some(v),
                None => old(self).spec_key(k),
            },
    {
        let ghost f = fetched@;
        let ghost base = self.keys;
        let mut rest = fetched;
        proof {
            assert(f.take(0) =~= Seq::<(String, V)>::empty());
            assert(rest@ =~= f.subrange(f.len() - rest@.len(), f.len() as int));
        }
        while rest.len() > 0
            invariant
                rest@.len() <= f.len(),
                rest@ == f.subrange(f.len() - rest@.len(), f.len() as int),
                forall|k: Seq<char>| #[trigger] self.keys.spec_get(k) == match last_for(f.take(f.len() - rest@.len()), k) {
                    Some(v) => Some(v),
                    None => base.spec_get(k),
                },
            decreases rest@.len(),
        {
            let ghost j = f.len() - rest@.len();
            let (kid, key) = rest.remove(0);
            proof {
                assert(f.take(j + 1).drop_last() =~= f.take(j));
                assert(f.take(j + 1).last() == f[j]);
                assert(f[j] == (kid, key));
                assert(rest@ =~= f.subrange(f.len() - rest@.len(), f.len() as int));
            }
            self.keys.insert(kid, key);
        }
        proof {
            assert(f.take(f.len() as int) =~= f);
        }
        self.loaded = true;
        self.last_fetch_success = true;
        self.refresh_delay_secs = next_refresh_secs;
    }

    /// Records a failed fetch: the cached keys stay, and the next attempt
    /// is scheduled 30 seconds on.
    pub fn record_failure(&mut self)
        ensures
            !final(self).last_fetch_success,
            final(self).refresh_delay_secs == FAILURE_RETRY_SECS,
            final(self).loaded == old(self).loaded,
            forall|k: Seq<char>| #[trigger] final(self).spec_key(k) == old(self).spec_key(k),
    {
        self.last_fetch_success = false;
        self.refresh_delay_secs = FAILURE_RETRY_SECS;
    }

    /// The key cached for `kid`, if any.
    pub fn get_key(&self, kid: &str) -> (r: Option<&V>)
        ensures
            match r {
                Some(v) => self.spec_key(kid@) == Some(*v),
                None => self.spec_key(kid@) is None,
            },
    {
        self.keys.get(kid)
    }

    /// The number of cached keys.
    pub fn len(&self) -> (r: usize)
        ensures
            r == self.spec_len(),
    {
        self.keys.len()
    }

    /// All cached keys with their IDs, in order of key ID.
    pub fn all_keys(&self) -> (r: &Vec<(String, V)>)
        ensures
            r@.len() == self.spec_len(),
            forall|i: int| 0 <= i < r@.len() ==> self.spec_key(#[trigger] r@[i].0@) == Some(r@[i].1),
    {
        self.keys.lemma_sorted();
        let r = self.keys.entries();
        proof {
            assert forall|i: int| 0 <= i < r@.len() implies self.spec_key(#[trigger] r@[i].0@) == Some(r@[i].1) by {
                assert(self.keys.spec_keys()[i] == r@[i].0@);
            }
        }
        r
    }
}

/// The token signing keys, carried opaquely.
#[verifier::external_type_specification]
#[verifier::external_body]
pub struct ExDecodingKey(jsonwebtoken::DecodingKey);

/// The key ID in the header of the JWT `token`: `None` when the header
/// cannot be decoded, `Some(None)` when it names no key.
pub uninterp spec fn jwt_header_kid(token: Seq<char>) -> Option<Option<Seq<char>>>;

/// Decodes the header of `token` with `jsonwebtoken::decode_header` and
/// gives its key ID; on failure, the decoder's error text.
#[verifier::external_body]
fn token_header_kid(token: &str) -> (r: Result<Option<String>, String>)
    ensures
        match r {
            Ok(k) => jwt_header_kid(token@) == Some(opt_string_view(k)),
            Err(_) => jwt_header_kid(token@) is None,
        },
{
    jsonwebtoken::decode_header(token).map(|h| h.kid).map_err(|e| e.to_string())
}

/// The signature algorithms the library accepts for tokens.
#[derive(Debug, Clone, Copy, PartialEq, Eq, Structural)]
pub enum JwtAlgorithm {
    /// RSASSA-PKCS1-v1_5 with SHA-256
    RS256,
}

/// What a token is checked against: the algorithm, the leeway in seconds
/// for the time claims, the accepted audience and issuer (when configured),
/// and whether expiry and not-before are checked.
#[derive(Debug, Clone)]
pub struct JwtValidationParams {
    pub algorithm: JwtAlgorithm,
    pub leeway: u64,
    pub audience: Option<String>,
    pub issuer: Option<String>,
    pub validate_exp: bool,
    pub validate_nbf: bool,
}

/// The validation settings of a configuration: RS256, its leeway, its
/// audience and issuer if set, expiry and not-before always checked.
pub open spec fn spec_jwt_validation_params(c: AuthConfig) -> JwtValidationParams {
    JwtValidationParams {
        algorithm: JwtAlgorithm::RS256,
        leeway: c.leeway,
        audience: c.audience,
        issuer: c.issuer,
        validate_exp: true,
        validate_nbf: true,
    }
}

/// The validation settings of a configuration.
pub fn jwt_validation_params(config: &AuthConfig) -> (p: JwtValidationParams)
    ensures
        p == spec_jwt_validation_params(*config),
{
    JwtValidationParams {
        algorithm: JwtAlgorithm::RS256,
        leeway: config.leeway,
        audience: match &config.audience {
            Some(a) => Some(a.clone()),
            None => None,
        },
        issuer: match &config.issuer {
            Some(i) => Some(i.clone()),
            None => None,
        },
        validate_exp: true,
        validate_nbf: true,
    }
}

/// What `jsonwebtoken::decode` reads from the payload of the JWT `token`,
/// when the header and payload decode and the payload is a JSON object:
/// the claims as JSON text (as `serde_json` prints them), the audiences of
/// its `aud` claim and the issuers of its `iss` claim (a single string as a
/// one-element set; `None` when the claim is absent or is neither a string
/// nor a set of strings), and whether its `exp` claim is a number of
/// seconds.
pub uninterp spec fn jwt_contents(token: Seq<char>) -> Option<(Seq<char>, Option<Set<Seq<char>>>, Option<Set<Seq<char>>>, bool)>;

/// What an accepted token's contents `t` show of the settings `p` that it
/// was checked under: `claims` are its claims; its `exp` claim is a number;
/// a configured issuer is among the token's issuers, where it names any;
/// a configured audience is among the token's audiences, where it names
/// any; with no audience configured, the token names none.
pub open spec fn contents_accepted(t: (Seq<char>, Option<Set<Seq<char>>>, Option<Set<Seq<char>>>, bool), claims: Seq<char>,
    p: JwtValidationParams) -> bool {
    &&& claims == t.0
    &&& t.3
    &&& match p.issuer {
        Some(i) => t.2 matches Some(s) ==> s.contains(i@),
        None => true,
    }
    &&& match p.audience {
        Some(a) => t.1 matches Some(s) ==> s.contains(a@),
        None => t.1 is None,
    }
}

/// `claims` are what `token` carries, and its contents pass the checks
/// that `p` configures and that do not depend on the clock.
pub open spec fn claims_accepted(token: Seq<char>, claims: Seq<char>, p: JwtValidationParams) -> bool {
    jwt_contents(token) matches Some(t) && contents_accepted(t, claims, p)
}

/// Checks `token` with `key` by `jsonwebtoken::decode` under `params`
/// (each setting carried over to `jsonwebtoken::Validation`: the algorithm,
/// leeway, the audience and issuer as one-element sets, the expiry and
/// not-before switches; `exp` stays a required claim) and gives its claims
/// as JSON text, or the error text. On success the claims are the token's
/// own and its audience and issuer passed the configured ones. Not stated:
/// whether the signature matched the opaque `key`, and the expiry and
/// not-before checks, which depend on the clock; nor when it fails.
#[verifier::external_body]
fn decode_token(token: &str, key: &jsonwebtoken::DecodingKey, params: &JwtValidationParams) -> (r: Result<String, String>)
    ensures
        r matches Ok(c) ==> (jwt_contents(token@) matches Some(t) && contents_accepted(t, c@, *params)),
{
    let mut v = jsonwebtoken::Validation::new(match params.algorithm {
        JwtAlgorithm::RS256 => jsonwebtoken::Algorithm::RS256,
    });
    v.leeway = params.leeway;
    v.aud = params.audience.clone().map(|a| std::collections::HashSet::from_iter([a]));
    v.iss = params.issuer.clone().map(|i| std::collections::HashSet::from_iter([i]));
    v.validate_exp = params.validate_exp;
    v.validate_nbf = params.validate_nbf;
    jsonwebtoken::decode::<serde_json::Value>(token, key, &v).map(|d| d.claims.to_string()).map_err(|e| e.to_string())
}

/// One attempt with one key: the token must pass `decode_token` and its
/// claims must have the shape `accept` checks (the fields of the claims
/// type). Accepted claims are the token's own and passed `params`.
fn attempt<F: Fn(&str) -> Result<(), String>>(token: &str, key: &jsonwebtoken::DecodingKey, params: &JwtValidationParams,
    accept: &F) -> (r: Result<String, String>)
    requires
        forall|c: &str| accept.requires((c,)),
    ensures
        r matches Ok(c) ==> claims_accepted(token@, c@, *params),
{
    match decode_token(token, key, params) {
        Ok(claims) => match accept(claims.as_str()) {
            Ok(()) => Ok(claims),
            Err(e) => Err(e),
        },
        Err(e) => Err(e),
    }
}

/// The outcome of validating a token against the cached keys.
#[derive(Debug)]
pub enum CachedValidation {
    /// The token is valid; its claims as JSON text
    Valid(String),
    /// The keys must be fetched again, then the token tried with the key of
    /// this ID
    NeedRefresh(String),
    /// The token is refused with this error text
    Failed(String),
}

/// What the attempt with the cached key of `kid` means: no cached key, or
/// a failed attempt, asks for fresh keys; a successful one accepts.
pub fn cached_outcome(kid: String, attempted: Option<Result<String, String>>) -> (r: CachedValidation)
    ensures
        match attempted {
            Some(Ok(c)) => r matches CachedValidation::Valid(v) && v == c,
            _ => r matches CachedValidation::NeedRefresh(k) && k == kid,
        },
{
    match attempted {
        Some(Ok(c)) => CachedValidation::Valid(c),
        _ => CachedValidation::NeedRefresh(kid),
    }
}

/// Validates `token` against the cached keys under `config`'s settings: a
/// header that cannot be read or names no key refuses it; the cached key of
/// its ID, if it validates the token, accepts it, giving the token's own
/// claims, which passed `config`'s audience and issuer; otherwise the keys
/// must be fetched again.
pub fn validate_cached<F: Fn(&str) -> Result<(), String>>(cache: &KeyCache<jsonwebtoken::DecodingKey>, token: &str,
    config: &AuthConfig, accept: &F) -> (r: CachedValidation)
    requires
        forall|c: &str| accept.requires((c,)),
    ensures
        match jwt_header_kid(token@) {
            None => r matches CachedValidation::Failed(m) && seq_starts_with(m@, "Failed to decode token header: "@),
            Some(None) => r matches CachedValidation::Failed(m) && m@ == "Token missing key ID (kid)"@,
            Some(Some(kid)) => match r {
                CachedValidation::Valid(c) => cache.spec_key(kid) is Some
                    && claims_accepted(token@, c@, spec_jwt_validation_params(*config)),
                CachedValidation::NeedRefresh(k) => k@ == kid,
                CachedValidation::Failed(_) => false,
            },
        },
{
    let kid = match token_header_kid(token) {
        Err(e) => {
            let m = concat("Failed to decode token header: ", e.as_str());
            proof {
                assert(m@.subrange(0, "Failed to decode token header: "@.len() as int) =~= "Failed to decode token header: "@);
            }
            return CachedValidation::Failed(m);
        },
        Ok(None) => {
            return CachedValidation::Failed(owned("Token missing key ID (kid)"));
        },
        Ok(Some(k)) => k,
    };
    let params = jwt_validation_params(config);
    let attempted = match cache.get_key(kid.as_str()) {
        Some(key) => Some(attempt(token, key, &params, accept)),
        None => None,
    };
    cached_outcome(kid, attempted)
}

/// The view of an outcome of validation.
pub open spec fn outcome_view(r: Result<String, String>) -> Result<Seq<char>, Seq<char>> {
    match r {
        Ok(c) => Ok(c@),
        Err(e) => Err(e@),
    }
}

/// The first successful attempt among `outcomes` (in key order), or the
/// refusal for `kid` when none succeeded.
pub open spec fn spec_first_success(outcomes: Seq<Result<String, String>>, kid: Seq<char>) -> Result<Seq<char>, Seq<char>>
    decreases outcomes.len(),
{
    if outcomes.len() == 0 {
        Err("No key found for kid: "@ + kid)
    } else if outcomes[0] is Ok {
        outcome_view(outcomes[0])
    } else {
        spec_first_success(outcomes.drop_first(), kid)
    }
}

/// With no successful attempt, the refusal for `kid` results.
proof fn lemma_first_success_all_err(outcomes: Seq<Result<String, String>>, kid: Seq<char>)
    requires
        forall|j: int| 0 <= j < outcomes.len() ==> (#[trigger] outcomes[j]) is Err,
    ensures
        spec_first_success(outcomes, kid) == Err::<Seq<char>, Seq<char>>("No key found for kid: "@ + kid),
    decreases outcomes.len(),
{
    if outcomes.len() > 0 {
        assert(outcomes[0] is Err);
        assert forall|j: int| 0 <= j < outcomes.drop_first().len() implies (#[trigger] outcomes.drop_first()[j]) is Err by {
            assert(outcomes.drop_first()[j] == outcomes[j + 1]);
        }
        lemma_first_success_all_err(outcomes.drop_first(), kid);
    }
}

/// With a successful attempt last, some attempt succeeds.
proof fn lemma_first_success_ok(outcomes: Seq<Result<String, String>>, kid: Seq<char>)
    requires
        outcomes.len() > 0,
        outcomes.last() is Ok,
    ensures
        spec_first_success(outcomes, kid) is Ok,
    decreases outcomes.len(),
{
    if outcomes[0] is Err {
        assert(outcomes.drop_first().last() == outcomes.last());
        lemma_first_success_ok(outcomes.drop_first(), kid);
    }
}

/// A successful attempt chosen from `outcomes` is one of theirs, so it
/// has what every successful attempt has.
proof fn lemma_first_success_accepted(outcomes: Seq<Result<String, String>>, kid: Seq<char>, token: Seq<char>,
    p: JwtValidationParams)
    requires
        forall|j: int| 0 <= j < outcomes.len() ==> ((#[trigger] outcomes[j]) matches Ok(c) ==> claims_accepted(token, c@, p)),
    ensures
        spec_first_success(outcomes, kid) matches Ok(v) ==> claims_accepted(token, v, p),
    decreases outcomes.len(),
{
    if outcomes.len() > 0 {
        assert(outcomes[0] matches Ok(c) ==> claims_accepted(token, c@, p));
        assert forall|j: int| 0 <= j < outcomes.drop_first().len() implies ((#[trigger] outcomes.drop_first()[j]) matches Ok(c)
            ==> claims_accepted(token, c@, p)) by {
            assert(outcomes.drop_first()[j] == outcomes[j + 1]);
        }
        lemma_first_success_accepted(outcomes.drop_first(), kid, token, p);
    }
}

/// The first successful attempt among `outcomes`, in key order; the
/// refusal for `kid` when none succeeded.
pub fn first_success(outcomes: &Vec<Result<String, String>>, kid: &str) -> (r: Result<String, String>)
    ensures
        outcome_view(r) == spec_first_success(outcomes@, kid@),
{
    let mut i: usize = 0;
    proof {
        assert(outcomes@.subrange(0, outcomes@.len() as int) =~= outcomes@);
    }
    while i < outcomes.len()
        invariant
            i <= outcomes@.len(),
            spec_first_success(outcomes@, kid@) == spec_first_success(outcomes@.subrange(i as int, outcomes@.len() as int), kid@),
        decreases outcomes@.len() - i,
    {
        let ghost rest = outcomes@.subrange(i as int, outcomes@.len() as int);
        proof {
            assert(rest.drop_first() =~= outcomes@.subrange(i + 1, outcomes@.len() as int));
            assert(rest[0] == outcomes@[i as int]);
        }
        match &outcomes[i] {
            Ok(c) => {
                return Ok(c.clone());
            },
            Err(_) => {},
        }
        i += 1;
    }
    proof {
        assert(outcomes@.subrange(i as int, outcomes@.len() as int) =~= Seq::<Result<String, String>>::empty());
    }
    Err(concat("No key found for kid: ", kid))
}

/// Validates `token` after the keys were fetched again: with the key of
/// ID `kid` if there is one; else with every cached key in turn, the first
/// that validates it winning; else it is refused. Accepted claims are the
/// token's own and passed `config`'s audience and issuer.
pub fn validate_after_refresh<F: Fn(&str) -> Result<(), String>>(cache: &KeyCache<jsonwebtoken::DecodingKey>, token: &str,
    kid: &str, config: &AuthConfig, accept: &F) -> (r: Result<String, String>)
    requires
        forall|c: &str| accept.requires((c,)),
    ensures
        cache.spec_key(kid@) is Some ==> (r matches Err(m) ==> seq_starts_with(m@, "Token validation failed after key refresh: "@)),
        cache.spec_key(kid@) is None && cache.spec_len() == 0 ==> (r matches Err(m) && m@ == "No JWKS keys available for validation"@),
        cache.spec_key(kid@) is None && cache.spec_len() > 0 ==> (r matches Err(m) ==> m@ == "No key found for kid: "@ + kid@),
        r is Ok ==> cache.spec_key(kid@) is Some || cache.spec_len() > 0,
        r matches Ok(c) ==> claims_accepted(token@, c@, spec_jwt_validation_params(*config)),
{
    let params = jwt_validation_params(config);
    if let Some(key) = cache.get_key(kid) {
        return match attempt(token, key, &params, accept) {
            Ok(claims) => Ok(claims),
            Err(e) => {
                let m = concat("Token validation failed after key refresh: ", e.as_str());
                proof {
                    assert(m@.subrange(0, "Token validation failed after key refresh: "@.len() as int)
                        =~= "Token validation failed after key refresh: "@);
                }
                Err(m)
            },
        };
    }
    let all = cache.all_keys();
    if all.len() == 0 {
        return Err(owned("No JWKS keys available for validation"));
    }
    let mut outcomes: Vec<Result<String, String>> = Vec::new();
    let mut i: usize = 0;
    let mut found = false;
    while i < all.len() && !found
        invariant
            i <= all@.len(),
            all@.len() == cache.spec_len(),
            cache.spec_len() > 0,
            forall|c: &str| accept.requires((c,)),
            !found ==> forall|j: int| 0 <= j < outcomes@.len() ==> (#[trigger] outcomes@[j]) is Err,
            found ==> outcomes@.len() > 0 && outcomes@.last() is Ok,
            params == spec_jwt_validation_params(*config),
            forall|j: int| 0 <= j < outcomes@.len() ==> ((#[trigger] outcomes@[j]) matches Ok(c)
                ==> claims_accepted(token@, c@, params)),
        decreases all@.len() - i,
    {
        let outcome = attempt(token, &all[i].1, &params, accept);
        found = outcome.is_ok();
        outcomes.push(outcome);
        i += 1;
    }
    let r = first_success(&outcomes, kid);
    proof {
        if found {
            lemma_first_success_ok(outcomes@, kid@);
        } else {
            lemma_first_success_all_err(outcomes@, kid@);
        }
        lemma_first_success_accepted(outcomes@, kid@, token@, params);
    }
    r
}

} // verus!
