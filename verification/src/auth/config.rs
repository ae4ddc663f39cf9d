//! Authentication configuration: where the signing keys are published and
//! how tokens are checked.

use vstd::prelude::*;
use crate::text::{concat, contains, owned, parse_u64, parse_unsigned, seq_contains, seq_starts_with, starts_with, str_eq};

verus! {

/// Default JWKS URL format for Dynamic Auth
pub const DEFAULT_JWKS_URL: &'static str = "https://app.dynamic.xyz/api/v0/sdk/ENV_PLACEHOLDER/.well-known/jwks";

/// Environment variable key for the JWKS URL
pub const ENV_JWKS_URL: &'static str = "DYNAMIC_JWKS_URL";

/// Environment variable key for the issuer (optional)
pub const ENV_JWT_ISSUER: &'static str = "DYNAMIC_JWT_ISSUER";

/// Environment variable key for the audience (optional)
pub const ENV_JWT_AUDIENCE: &'static str = "DYNAMIC_JWT_AUDIENCE";

/// Environment variable key for JWT token leeway in seconds (optional)
pub const ENV_JWT_LEEWAY: &'static str = "DYNAMIC_JWT_LEEWAY";

/// Default leeway in seconds for token validation
pub const DEFAULT_LEEWAY: u64 = 60;

/// The marker that the default URL holds in place of an environment ID.
pub const PLACEHOLDER_MARKER: &'static str = "ENV_PLACEHOLDER";

/// The message for a URL that is still the placeholder.
pub const URL_NOT_SET_MESSAGE: &'static str = "DYNAMIC_JWKS_URL environment variable not set correctly. Please set it to your Dynamic Auth JWKS URL";

/// The start of the message for a URL of the wrong shape.
pub const INVALID_URL_PREFIX: &'static str = "Invalid JWKS URL format: ";

/// Authentication configuration, as loaded from the environment.
#[derive(Debug, Clone)]
pub struct AuthConfig {
    /// JWKS URL for Dynamic Auth
    pub jwks_url: String,
    /// Expected JWT issuer (optional)
    pub issuer: Option<String>,
    /// Expected JWT audience (optional)
    pub audience: Option<String>,
    /// Leeway in seconds for token validation
    pub leeway: u64,
}

/// Whether a JWKS URL is usable, and the message when it is not.
pub open spec fn spec_validate_url(url: Seq<char>) -> Result<(), Seq<char>> {
    if url == DEFAULT_JWKS_URL@ || seq_contains(url, PLACEHOLDER_MARKER@) {
        Err(URL_NOT_SET_MESSAGE@)
    } else if !seq_starts_with(url, "http"@) || !seq_contains(url, "jwks"@) {
        Err(INVALID_URL_PREFIX@ + url)
    } else {
        Ok(())
    }
}

/// The view of a unit result with a string error.
pub open spec fn unit_result_view(r: Result<(), String>) -> Result<(), Seq<char>> {
    match r {
        Ok(()) => Ok(()),
        Err(e) => Err(e@),
    }
}

/// The leeway that an optional environment value gives.
pub open spec fn spec_leeway(value: Option<String>) -> u64 {
    match value {
        Some(v) => match parse_unsigned(v@, u64::MAX as nat) {
            Some(n) => n as u64,
            None => DEFAULT_LEEWAY,
        },
        None => DEFAULT_LEEWAY,
    }
}

impl AuthConfig {
    /// Builds the configuration from the values of the environment variables
    /// `DYNAMIC_JWKS_URL`, `DYNAMIC_JWT_ISSUER`, `DYNAMIC_JWT_AUDIENCE` and
    /// `DYNAMIC_JWT_LEEWAY`: the placeholder URL when none is set, and a
    /// leeway of 60 seconds when none is set or it is no decimal number.
    pub fn from_env_values(
        jwks_url: Option<String>,
        issuer: Option<String>,
        audience: Option<String>,
        leeway: Option<String>,
    ) -> (r: Self)
        ensures
            r.jwks_url@ == (match jwks_url {
                Some(u) => u@,
                None => DEFAULT_JWKS_URL@,
            }),
            r.issuer == issuer,
            r.audience == audience,
            r.leeway == spec_leeway(leeway),
    {
        let url = match jwks_url {
            Some(u) => u,
            None => owned(DEFAULT_JWKS_URL),
        };
        let lw = match &leeway {
            Some(v) => match parse_u64(v.as_str()) {
                Some(n) => n,
                None => DEFAULT_LEEWAY,
            },
            None => DEFAULT_LEEWAY,
        };
        AuthConfig { jwks_url: url, issuer, audience, leeway: lw }
    }

    /// Validate the configuration: the URL must be set and look like a JWKS URL.
    pub fn validate(&self) -> (r: Result<(), String>)
        ensures
            unit_result_view(r) == spec_validate_url(self.jwks_url@),
    {
        let url = self.jwks_url.as_str();
        if str_eq(url, DEFAULT_JWKS_URL) || contains(url, PLACEHOLDER_MARKER) {
            return Err(owned(URL_NOT_SET_MESSAGE));
        }
        if !starts_with(url, "http") || !contains(url, "jwks") {
            return Err(concat(INVALID_URL_PREFIX, url));
        }
        Ok(())
    }

    /// Get the JWKS URL from the config.
    pub fn get_jwks_url(&self) -> (r: &str)
        ensures
            r@ == self.jwks_url@,
    {
        self.jwks_url.as_str()
    }

    /// The JWKS URL once it has passed validation.
    pub fn init_jwks_url(&self) -> (r: Result<&str, String>)
        ensures
            match r {
                Ok(u) => spec_validate_url(self.jwks_url@) is Ok && u@ == self.jwks_url@,
                Err(e) => spec_validate_url(self.jwks_url@) == Err::<(), Seq<char>>(e@),
            },
    {
        match self.validate() {
            Ok(()) => Ok(self.jwks_url.as_str()),
            Err(e) => Err(e),
        }
    }
}

/// The JWKS URL of a configuration, as an owned string.
pub fn get_jwks_url(config: &AuthConfig) -> (r: String)
    ensures
        r@ == config.jwks_url@,
{
    config.jwks_url.clone()
}

/// The JWKS URL of a configuration once it has passed validation.
pub fn init_jwks_url(config: &AuthConfig) -> (r: Result<String, String>)
    ensures
        match r {
            Ok(u) => spec_validate_url(config.jwks_url@) is Ok && u@ == config.jwks_url@,
            Err(e) => spec_validate_url(config.jwks_url@) == Err::<(), Seq<char>>(e@),
        },
{
    match config.validate() {
        Ok(_) => Ok(config.jwks_url.clone()),
        Err(e) => Err(e),
    }
}

} // verus!
