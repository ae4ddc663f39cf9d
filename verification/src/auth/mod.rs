//! Authentication: token claims, configuration, permissions, project access,
//! signature checks, and the simplified claims that the request handlers use.

pub mod claims;
pub mod ecdsa;
pub mod jwks;
pub mod config;
pub mod middleware;
pub mod permissions;
pub mod project_access;

use vstd::prelude::*;
use crate::auth::claims::{opt_str_view, opt_view, opt_as_str, role_from_text};

verus! {

/// The claims the request handlers read: subject, user ID, email and role.
#[derive(Debug, Clone)]
pub struct DynamicClaims {
    pub sub: String,
    pub dynamic_user_id: Option<String>,
    pub email: Option<String>,
    pub role: Option<String>,
}

/// The roles a handler checks for.
#[derive(Debug, Clone, PartialEq, Eq, Structural)]
pub enum UserRole {
    Admin,
    Developer,
    User,
}

/// The handler role that the claims' role name stands for, ignoring case.
pub open spec fn handler_role_from_text(s: Seq<char>) -> Option<UserRole> {
    match role_from_text(s) {
        Some(crate::auth::claims::UserRole::Admin) => Some(UserRole::Admin),
        Some(crate::auth::claims::UserRole::Developer) => Some(UserRole::Developer),
        Some(crate::auth::claims::UserRole::User) => Some(UserRole::User),
        None => None,
    }
}

impl UserRole {
    /// Parses a role name, ignoring case; `Err(())` for an unknown name.
    pub fn parse(s: &str) -> (r: Result<UserRole, ()>)
        ensures
            match r {
                Ok(role) => handler_role_from_text(s@) == Some(role),
                Err(()) => handler_role_from_text(s@) is None,
            },
    {
        match crate::auth::claims::UserRole::from_str(s) {
            Some(crate::auth::claims::UserRole::Admin) => Ok(UserRole::Admin),
            Some(crate::auth::claims::UserRole::Developer) => Ok(UserRole::Developer),
            Some(crate::auth::claims::UserRole::User) => Ok(UserRole::User),
            None => Err(()),
        }
    }
}

impl std::str::FromStr for UserRole {
    type Err = ();

    fn from_str(s: &str) -> (r: Result<Self, Self::Err>)
        ensures
            match r {
                Ok(role) => handler_role_from_text(s@) == Some(role),
                Err(()) => handler_role_from_text(s@) is None,
            },
    {
        UserRole::parse(s)
    }
}

/// The handler role that an optional role claim stands for.
pub open spec fn handler_claimed_role(role: Option<String>) -> Option<UserRole> {
    match role {
        Some(r) => handler_role_from_text(r@),
        None => None,
    }
}

impl DynamicClaims {
    /// The role named by the claims, if it is a known role.
    pub fn user_role(&self) -> (r: Option<UserRole>)
        ensures
            r == handler_claimed_role(self.role),
    {
        match &self.role {
            Some(r) => match UserRole::parse(r.as_str()) {
                Ok(role) => Some(role),
                Err(()) => None,
            },
            None => None,
        }
    }

    /// The email address, if any.
    pub fn email(&self) -> (r: Option<&str>)
        ensures
            opt_str_view(r) == opt_view(self.email),
    {
        opt_as_str(&self.email)
    }
}

/// The ways a handler refuses a request.
#[derive(Debug, Clone, Copy, PartialEq, Eq, Structural)]
pub enum AuthError {
    Unauthorized,
    Forbidden,
    InvalidToken,
    MissingClaims,
}

impl AuthError {
    /// The HTTP status code of the refusal.
    pub fn status_code(&self) -> (r: u16)
        ensures
            r == (match *self {
                AuthError::Forbidden => 403u16,
                _ => 401u16,
            }),
    {
        match self {
            AuthError::Unauthorized => 401,
            AuthError::Forbidden => 403,
            AuthError::InvalidToken => 401,
            AuthError::MissingClaims => 401,
        }
    }
}

/// Path access check for the handlers: every project path is allowed.
pub fn verify_project_path_access(claims: &DynamicClaims, project_id: &str) -> (r: Result<(), AuthError>)
    ensures
        r == Ok::<(), AuthError>(()),
{
    Ok(())
}

/// Resource access check for the handlers: every resource is allowed.
pub fn has_resource_access(claims: &DynamicClaims, resource_id: &str) -> (r: bool)
    ensures
        r,
{
    true
}

/// The claims must name exactly the required role.
pub fn verify_role(claims: &DynamicClaims, required_role: UserRole) -> (r: Result<(), AuthError>)
    ensures
        r == (if handler_claimed_role(claims.role) == Some(required_role) {
            Ok::<(), AuthError>(())
        } else {
            Err(AuthError::Forbidden)
        }),
{
    match claims.user_role() {
        Some(role) => {
            if role == required_role {
                Ok(())
            } else {
                Err(AuthError::Forbidden)
            }
        },
        None => Err(AuthError::Forbidden),
    }
}

/// The subject and email of the claims.
pub fn extract_user_info(claims: &DynamicClaims) -> (r: (String, Option<String>))
    ensures
        r.0@ == claims.sub@,
        r.1 == claims.email,
{
    (claims.sub.clone(), claims.email.clone())
}

} // verus!
