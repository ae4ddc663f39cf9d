//! Checks made on requests that carry a JWT: extracting the bearer token,
//! checking role and project, and describing each refusal.

use vstd::prelude::*;
use base64::Engine;
use crate::clock::unix_time_secs;
use crate::auth::claims::{opt_str_view, opt_view, role_covers, DynamicClaims, UserRole};
use crate::text::{concat, owned, seq_starts_with, split_chars, split_spec, starts_with, string_from_chars, suffix_from};

verus! {

/// Why a request carrying a JWT was refused.
#[derive(Debug, Clone)]
pub enum AuthError {
    /// Missing Authorization header
    MissingToken,
    /// Invalid token format (not a Bearer token)
    InvalidTokenFormat,
    /// Token validation failed with a specific error
    TokenValidationFailed(String),
    /// Authorization error (insufficient permissions)
    InsufficientPermissions,
    /// Other unexpected errors
    Other(String),
}

impl AuthError {
    /// The HTTP status of the refusal.
    pub fn status_code(&self) -> (r: u16)
        ensures
            r == (match *self {
                AuthError::InsufficientPermissions => 403u16,
                AuthError::Other(_) => 500u16,
                _ => 401u16,
            }),
    {
        match self {
            AuthError::MissingToken => 401,
            AuthError::InvalidTokenFormat => 401,
            AuthError::TokenValidationFailed(_) => 401,
            AuthError::InsufficientPermissions => 403,
            AuthError::Other(_) => 500,
        }
    }

    /// The machine-readable error code of the refusal.
    pub fn error_code(&self) -> (r: &'static str)
        ensures
            r@ == (match *self {
                AuthError::MissingToken => "authentication_required"@,
                AuthError::InvalidTokenFormat => "invalid_token_format"@,
                AuthError::TokenValidationFailed(_) => "invalid_token"@,
                AuthError::InsufficientPermissions => "insufficient_permissions"@,
                AuthError::Other(_) => "authentication_error"@,
            }),
    {
        match self {
            AuthError::MissingToken => "authentication_required",
            AuthError::InvalidTokenFormat => "invalid_token_format",
            AuthError::TokenValidationFailed(_) => "invalid_token",
            AuthError::InsufficientPermissions => "insufficient_permissions",
            AuthError::Other(_) => "authentication_error",
        }
    }

    /// The human-readable message of the refusal.
    pub fn message(&self) -> (r: &'static str)
        ensures
            r@ == (match *self {
                AuthError::MissingToken => "Authentication is required to access this resource"@,
                AuthError::InvalidTokenFormat => "The provided authentication token is invalid"@,
                AuthError::TokenValidationFailed(_) => "The provided authentication token is invalid"@,
                AuthError::InsufficientPermissions => "You don't have permission to access this resource"@,
                AuthError::Other(_) => "An unexpected authentication error occurred"@,
            }),
    {
        match self {
            AuthError::MissingToken => "Authentication is required to access this resource",
            AuthError::InvalidTokenFormat => "The provided authentication token is invalid",
            AuthError::TokenValidationFailed(_) => "The provided authentication token is invalid",
            AuthError::InsufficientPermissions => "You don't have permission to access this resource",
            AuthError::Other(_) => "An unexpected authentication error occurred",
        }
    }

    /// The details of the refusal.
    pub fn details(&self) -> (r: String)
        ensures
            r@ == (match *self {
                AuthError::MissingToken => "No authorization token was provided in the request"@,
                AuthError::InvalidTokenFormat => "Token must be a valid Bearer token"@,
                AuthError::TokenValidationFailed(m) => m@,
                AuthError::InsufficientPermissions => "The authenticated user lacks the required role or project access"@,
                AuthError::Other(m) => m@,
            }),
    {
        match self {
            AuthError::MissingToken => owned("No authorization token was provided in the request"),
            AuthError::InvalidTokenFormat => owned("Token must be a valid Bearer token"),
            AuthError::TokenValidationFailed(m) => m.clone(),
            AuthError::InsufficientPermissions => owned("The authenticated user lacks the required role or project access"),
            AuthError::Other(m) => m.clone(),
        }
    }

    /// The `WWW-Authenticate` challenge for refusals with status 401.
    pub fn www_authenticate(&self) -> (r: Option<&'static str>)
        ensures
            r matches Some(c) ==> c@ == (match *self {
                AuthError::MissingToken => "Bearer error=\"invalid_request\""@,
                _ => "Bearer error=\"invalid_token\""@,
            }),
            r is Some <==> (match *self {
                AuthError::InsufficientPermissions => false,
                AuthError::Other(_) => false,
                _ => true,
            }),
    {
        match self {
            AuthError::MissingToken => Some("Bearer error=\"invalid_request\""),
            AuthError::InvalidTokenFormat => Some("Bearer error=\"invalid_token\""),
            AuthError::TokenValidationFailed(_) => Some("Bearer error=\"invalid_token\""),
            _ => None,
        }
    }

    /// The one-line description of the refusal.
    pub fn describe(&self) -> (r: String)
        ensures
            r@ == (match *self {
                AuthError::MissingToken => "Missing Authorization header"@,
                AuthError::InvalidTokenFormat => "Invalid token format (not a Bearer token)"@,
                AuthError::TokenValidationFailed(m) => "Token validation failed: "@ + m@,
                AuthError::InsufficientPermissions => "Insufficient permissions for this operation"@,
                AuthError::Other(m) => "Authentication error: "@ + m@,
            }),
    {
        match self {
            AuthError::MissingToken => owned("Missing Authorization header"),
            AuthError::InvalidTokenFormat => owned("Invalid token format (not a Bearer token)"),
            AuthError::TokenValidationFailed(m) => concat("Token validation failed: ", m.as_str()),
            AuthError::InsufficientPermissions => owned("Insufficient permissions for this operation"),
            AuthError::Other(m) => concat("Authentication error: ", m.as_str()),
        }
    }
}

/// The name of a role as shown to users.
pub open spec fn spec_role_display(role: UserRole) -> Seq<char> {
    match role {
        UserRole::Admin => "Admin"@,
        UserRole::Developer => "Developer"@,
        UserRole::User => "User"@,
    }
}

/// The name of a role with its article, as shown to users.
pub open spec fn spec_required_role_display(role: UserRole) -> Seq<char> {
    match role {
        UserRole::Admin => "an Admin"@,
        UserRole::Developer => "a Developer"@,
        UserRole::User => "a User"@,
    }
}

/// The lower-case name of a role, as written in refusals.
pub open spec fn spec_role_code(role: UserRole) -> Seq<char> {
    match role {
        UserRole::Admin => "admin"@,
        UserRole::Developer => "developer"@,
        UserRole::User => "user"@,
    }
}

/// Display a role name in a user-friendly way.
pub fn role_display(role: &UserRole) -> (r: &'static str)
    ensures
        r@ == spec_role_display(*role),
{
    match role {
        UserRole::Admin => "Admin",
        UserRole::Developer => "Developer",
        UserRole::User => "User",
    }
}

/// Display a required role name with its article.
pub fn required_role_display(role: &UserRole) -> (r: &'static str)
    ensures
        r@ == spec_required_role_display(*role),
{
    match role {
        UserRole::Admin => "an Admin",
        UserRole::Developer => "a Developer",
        UserRole::User => "a User",
    }
}

/// The lower-case name of a role, as written in refusals.
pub fn role_code(role: &UserRole) -> (r: &'static str)
    ensures
        r@ == spec_role_code(*role),
{
    match role {
        UserRole::Admin => "admin",
        UserRole::Developer => "developer",
        UserRole::User => "user",
    }
}

/// The content of a refusal for a role or project check, from which the
/// response (status 403 and a JSON body) is built.
#[derive(Debug, Clone)]
pub enum Rejection {
    /// The user's role does not cover the required role.
    Role {
        required_role: UserRole,
        user_role: Option<UserRole>,
    },
    /// The token is not valid for the requested project.
    Project {
        project_id: String,
        user_project: Option<String>,
    },
    /// Project and role checked together.
    Access {
        project_id: String,
        required_role: UserRole,
        has_project_access: bool,
        has_role_access: bool,
        user_project: Option<String>,
        user_role: UserRole,
    },
    /// The endpoint wants exactly the Developer role.
    IncorrectRole {
        user_role: UserRole,
    },
}

/// A refusal for a role that does not cover `required_role`.
pub fn create_role_rejection(required_role: UserRole, user_role: Option<UserRole>) -> (r: Rejection)
    ensures
        r == (Rejection::Role { required_role, user_role }),
{
    Rejection::Role { required_role, user_role }
}

/// A refusal for a project the token is not valid for.
pub fn create_project_rejection(project_id: &str, user_project: Option<&str>) -> (r: Rejection)
    ensures
        r matches Rejection::Project { project_id: p, user_project: u }
            && p@ == project_id@ && opt_view(u) == opt_str_view(user_project),
{
    let u = match user_project {
        Some(s) => Some(owned(s)),
        None => None,
    };
    Rejection::Project { project_id: owned(project_id), user_project: u }
}

/// A refusal that reports both the project and the role check.
pub fn create_access_rejection(project_id: &str, required_role: UserRole, claims: &DynamicClaims) -> (r: Rejection)
    ensures
        r matches Rejection::Access { project_id: p, required_role: rr, has_project_access: hp,
            has_role_access: hr, user_project: up, user_role: ur }
            && p@ == project_id@ && rr == required_role
            && hp == claims.spec_is_for_project(project_id@)
            && hr == role_covers(claims.spec_role(), required_role)
            && opt_view(up) == claims.spec_project()
            && ur == claims.spec_role(),
{
    let hp = claims.is_for_project(project_id);
    let hr = claims.has_role(&required_role);
    let up = match claims.project_id() {
        Some(s) => Some(owned(s)),
        None => None,
    };
    Rejection::Access {
        project_id: owned(project_id),
        required_role,
        has_project_access: hp,
        has_role_access: hr,
        user_project: up,
        user_role: claims.user_role(),
    }
}

/// The error code of a refusal.
pub open spec fn spec_rejection_error(r: Rejection) -> Seq<char> {
    match r {
        Rejection::Role { .. } => "insufficient_permissions"@,
        Rejection::Project { .. } => "project_access_denied"@,
        Rejection::Access { has_project_access, has_role_access, .. } =>
            if !has_project_access && !has_role_access {
                "access_denied"@
            } else if !has_project_access {
                "project_access_denied"@
            } else {
                "insufficient_permissions"@
            },
        Rejection::IncorrectRole { .. } => "incorrect_role"@,
    }
}

/// The message of a refusal.
pub open spec fn spec_rejection_message(r: Rejection) -> Seq<char> {
    match r {
        Rejection::Role { required_role, .. } =>
            "This endpoint requires "@ + spec_required_role_display(required_role) + " role"@,
        Rejection::Project { project_id, .. } =>
            "You don't have access to project "@ + project_id@,
        Rejection::Access { project_id, required_role, has_project_access, has_role_access, .. } =>
            if !has_project_access && !has_role_access {
                "You need both access to project "@ + project_id@ + " and "@
                    + spec_required_role_display(required_role) + " role"@
            } else if !has_project_access {
                "You don't have access to project "@ + project_id@
            } else {
                "This endpoint requires "@ + spec_required_role_display(required_role) + " role"@
            },
        Rejection::IncorrectRole { .. } => "This endpoint requires specifically a Developer role"@,
    }
}

/// The details line of a refusal, for the kinds that have one.
pub open spec fn spec_rejection_details(r: Rejection) -> Option<Seq<char>> {
    match r {
        Rejection::Role { user_role, .. } => Some(match user_role {
            Some(role) => "Current user has "@ + spec_role_display(role) + " role which is insufficient"@,
            None => "Current user has no role assigned"@,
        }),
        Rejection::Project { project_id, user_project } => Some(match user_project {
            Some(pid) => "Current user belongs to project "@ + pid@ + " but requested access to "@ + project_id@,
            None => "Current user has no project assigned"@,
        }),
        Rejection::Access { .. } => None,
        Rejection::IncorrectRole { user_role } => Some(match user_role {
            UserRole::Admin => "Admin users must use the admin-specific endpoint"@,
            UserRole::User => "User role is insufficient for this operation"@,
            UserRole::Developer => "Current role does not have access to this endpoint"@,
        }),
    }
}

impl Rejection {
    /// The HTTP status of every refusal: 403.
    pub fn status_code(&self) -> (r: u16)
        ensures
            r == 403,
    {
        403
    }

    /// The error code of the refusal.
    pub fn error_code(&self) -> (r: &'static str)
        ensures
            r@ == spec_rejection_error(*self),
    {
        match self {
            Rejection::Role { .. } => "insufficient_permissions",
            Rejection::Project { .. } => "project_access_denied",
            Rejection::Access { has_project_access, has_role_access, .. } => {
                if !*has_project_access && !*has_role_access {
                    "access_denied"
                } else if !*has_project_access {
                    "project_access_denied"
                } else {
                    "insufficient_permissions"
                }
            },
            Rejection::IncorrectRole { .. } => "incorrect_role",
        }
    }

    /// The message of the refusal.
    pub fn message(&self) -> (r: String)
        ensures
            r@ == spec_rejection_message(*self),
    {
        match self {
            Rejection::Role { required_role, .. } => {
                let a = concat("This endpoint requires ", required_role_display(required_role));
                concat(a.as_str(), " role")
            },
            Rejection::Project { project_id, .. } => concat("You don't have access to project ", project_id.as_str()),
            Rejection::Access { project_id, required_role, has_project_access, has_role_access, .. } => {
                if !*has_project_access && !*has_role_access {
                    let a = concat("You need both access to project ", project_id.as_str());
                    let b = concat(a.as_str(), " and ");
                    let c = concat(b.as_str(), required_role_display(required_role));
                    concat(c.as_str(), " role")
                } else if !*has_project_access {
                    concat("You don't have access to project ", project_id.as_str())
                } else {
                    let a = concat("This endpoint requires ", required_role_display(required_role));
                    concat(a.as_str(), " role")
                }
            },
            Rejection::IncorrectRole { .. } => owned("This endpoint requires specifically a Developer role"),
        }
    }

    /// The details line of the refusal, for the kinds that have one.
    pub fn details(&self) -> (r: Option<String>)
        ensures
            match r {
                Some(d) => spec_rejection_details(*self) == Some(d@),
                None => spec_rejection_details(*self) is None,
            },
    {
        match self {
            Rejection::Role { user_role, .. } => Some(match user_role {
                Some(role) => {
                    let a = concat("Current user has ", role_display(role));
                    concat(a.as_str(), " role which is insufficient")
                },
                None => owned("Current user has no role assigned"),
            }),
            Rejection::Project { project_id, user_project } => Some(match user_project {
                Some(pid) => {
                    let a = concat("Current user belongs to project ", pid.as_str());
                    let b = concat(a.as_str(), " but requested access to ");
                    concat(b.as_str(), project_id.as_str())
                },
                None => owned("Current user has no project assigned"),
            }),
            Rejection::Access { .. } => None,
            Rejection::IncorrectRole { user_role } => Some(match user_role {
                UserRole::Admin => owned("Admin users must use the admin-specific endpoint"),
                UserRole::User => owned("User role is insufficient for this operation"),
                UserRole::Developer => owned("Current role does not have access to this endpoint"),
            }),
        }
    }
}

/// The prefix of a bearer authorization header.
pub const BEARER_PREFIX: &'static str = "Bearer ";

/// Extract the token from an Authorization header value in Bearer format.
pub fn extract_token_from_header(auth_header: &str) -> (r: Result<&str, AuthError>)
    ensures
        match r {
            Ok(t) => seq_starts_with(auth_header@, BEARER_PREFIX@)
                && t@ == auth_header@.subrange(7, auth_header@.len() as int),
            Err(e) => !seq_starts_with(auth_header@, BEARER_PREFIX@) && e == AuthError::InvalidTokenFormat,
        },
{
    if !starts_with(auth_header, BEARER_PREFIX) {
        return Err(AuthError::InvalidTokenFormat);
    }
    proof {
        reveal_strlit("Bearer ");
    }
    Ok(suffix_from(auth_header, 7))
}

/// Verify that the claims belong to the specified project.
pub fn verify_project_access(claims: &DynamicClaims, project_id: &str) -> (r: Result<(), AuthError>)
    ensures
        r is Ok <==> claims.spec_is_for_project(project_id@),
        r matches Err(e) ==> e == AuthError::InsufficientPermissions,
{
    if claims.is_for_project(project_id) {
        Ok(())
    } else {
        Err(AuthError::InsufficientPermissions)
    }
}

/// Verify that the claims have the required role.
pub fn verify_role(claims: &DynamicClaims, required_role: UserRole) -> (r: Result<(), AuthError>)
    ensures
        r is Ok <==> role_covers(claims.spec_role(), required_role),
        r matches Err(e) ==> e == AuthError::InsufficientPermissions,
{
    if claims.has_role(&required_role) {
        Ok(())
    } else {
        Err(AuthError::InsufficientPermissions)
    }
}

/// Verify both project access and role.
pub fn verify_project_and_role(claims: &DynamicClaims, project_id: &str, required_role: UserRole) -> (r: Result<(), AuthError>)
    ensures
        r is Ok <==> claims.spec_is_for_project(project_id@) && role_covers(claims.spec_role(), required_role),
        r matches Err(e) ==> e == AuthError::InsufficientPermissions,
{
    match verify_project_access(claims, project_id) {
        Ok(()) => verify_role(claims, required_role),
        Err(e) => Err(e),
    }
}

/// Get active wallet address from claims.
pub fn get_wallet_address(claims: &DynamicClaims) -> (r: Option<&str>)
    ensures
        opt_str_view(r) == opt_view(claims.wallet_address),
{
    claims.wallet_address()
}

/// Get user email from claims.
pub fn get_user_email(claims: &DynamicClaims) -> (r: Option<&str>)
    ensures
        opt_str_view(r) == opt_view(claims.email),
{
    claims.email()
}

/// Check whether the token is valid now (not expired, not before its start).
pub fn is_token_valid(claims: &DynamicClaims) -> (r: bool)
    ensures
        exists|now: u64| r == claims.spec_valid_time(now),
{
    let now = unix_time_secs();
    claims.is_valid_time(now)
}

/// Verify that the claims belong to the project named in the path.
pub fn verify_project_path_access(claims: &DynamicClaims, project_id: &str) -> (r: Result<(), AuthError>)
    ensures
        r is Ok <==> claims.spec_is_for_project(project_id@),
        r matches Err(e) ==> e == AuthError::InsufficientPermissions,
{
    if !claims.is_for_project(project_id) {
        return Err(AuthError::InsufficientPermissions);
    }
    Ok(())
}

/// A user may reach a resource of their own project; an admin may reach any.
pub fn has_resource_access(claims: &DynamicClaims, _resource_id: &str, resource_project_id: &str) -> (r: Result<(), AuthError>)
    ensures
        r is Ok <==> claims.spec_is_for_project(resource_project_id@) || claims.spec_role() == UserRole::Admin,
        r matches Err(e) ==> e == AuthError::InsufficientPermissions,
{
    if !claims.is_for_project(resource_project_id) {
        if claims.is_admin() {
            return Ok(());
        }
        return Err(AuthError::InsufficientPermissions);
    }
    Ok(())
}

/// Claims of a user with the Admin role.
pub struct AdminClaims(pub DynamicClaims);

/// Claims of a user with the Developer or Admin role.
pub struct DeveloperOrAdminClaims(pub DynamicClaims);

/// Claims of a user with exactly the Developer role.
pub struct DeveloperOnlyClaims(pub DynamicClaims);

impl AdminClaims {
    /// Accepts the claims of an admin; refuses others with a role refusal.
    pub fn from_claims(claims: DynamicClaims) -> (r: Result<AdminClaims, Rejection>)
        ensures
            match r {
                Ok(a) => claims.spec_role() == UserRole::Admin && a.0 == claims,
                Err(j) => claims.spec_role() != UserRole::Admin
                    && j == (Rejection::Role { required_role: UserRole::Admin, user_role: Some(claims.spec_role()) }),
            },
    {
        if claims.is_admin() {
            Ok(AdminClaims(claims))
        } else {
            let role = claims.user_role();
            Err(create_role_rejection(UserRole::Admin, Some(role)))
        }
    }
}

impl DeveloperOrAdminClaims {
    /// Accepts the claims of a developer or admin; refuses others.
    pub fn from_claims(claims: DynamicClaims) -> (r: Result<DeveloperOrAdminClaims, Rejection>)
        ensures
            match r {
                Ok(a) => claims.spec_role() != UserRole::User && a.0 == claims,
                Err(j) => claims.spec_role() == UserRole::User
                    && j == (Rejection::Role { required_role: UserRole::Developer, user_role: Some(claims.spec_role()) }),
            },
    {
        if claims.is_developer() {
            Ok(DeveloperOrAdminClaims(claims))
        } else {
            let role = claims.user_role();
            Err(create_role_rejection(UserRole::Developer, Some(role)))
        }
    }
}

impl DeveloperOnlyClaims {
    /// Accepts only the claims of a developer; refuses admins and users.
    pub fn from_claims(claims: DynamicClaims) -> (r: Result<DeveloperOnlyClaims, Rejection>)
        ensures
            match r {
                Ok(a) => claims.spec_role() == UserRole::Developer && a.0 == claims,
                Err(j) => claims.spec_role() != UserRole::Developer
                    && j == (Rejection::IncorrectRole { user_role: claims.spec_role() }),
            },
    {
        let role = claims.user_role();
        match role {
            UserRole::Developer => Ok(DeveloperOnlyClaims(claims)),
            _ => Err(Rejection::IncorrectRole { user_role: role }),
        }
    }
}

/// The project ID in a request path: its third `/`-separated piece, as in
/// `/projects/{project_id}/...`.
pub fn project_id_from_path(path: &str) -> (r: Option<String>)
    ensures
        match r {
            Some(p) => split_spec(path@, '/').len() > 2 && p@ == split_spec(path@, '/')[2],
            None => split_spec(path@, '/').len() <= 2,
        },
{
    let parts = split_chars(path, '/');
    if parts.len() > 2 {
        Some(string_from_chars(parts[2].as_slice()))
    } else {
        None
    }
}

/// Claims together with the project that the request path names.
pub struct ProjectRoleExtractor {
    pub claims: DynamicClaims,
    pub project_id: String,
}

impl ProjectRoleExtractor {
    /// Verify the user belongs to the project and holds the required role.
    pub fn verify_role(&self, required_role: UserRole) -> (r: Result<(), Rejection>)
        ensures
            match r {
                Ok(()) => self.claims.spec_is_for_project(self.project_id@)
                    && role_covers(self.claims.spec_role(), required_role),
                Err(j) => if !self.claims.spec_is_for_project(self.project_id@) {
                    j matches Rejection::Project { project_id: p, user_project: u }
                        && p@ == self.project_id@ && opt_view(u) == self.claims.spec_project()
                } else {
                    !role_covers(self.claims.spec_role(), required_role)
                        && j == (Rejection::Role { required_role, user_role: Some(self.claims.spec_role()) })
                },
            },
    {
        if !self.claims.is_for_project(self.project_id.as_str()) {
            return Err(create_project_rejection(self.project_id.as_str(), self.claims.project_id()));
        }
        if !self.claims.has_role(&required_role) {
            return Err(create_role_rejection(required_role, Some(self.claims.user_role())));
        }
        Ok(())
    }

    /// Check if user is an administrator for this project.
    pub fn verify_admin(&self) -> (r: Result<(), Rejection>)
        ensures
            r is Ok <==> self.claims.spec_is_for_project(self.project_id@)
                && self.claims.spec_role() == UserRole::Admin,
    {
        self.verify_role(UserRole::Admin)
    }

    /// Check if user is a developer (or admin) for this project.
    pub fn verify_developer(&self) -> (r: Result<(), Rejection>)
        ensures
            r is Ok <==> self.claims.spec_is_for_project(self.project_id@)
                && self.claims.spec_role() != UserRole::User,
    {
        self.verify_role(UserRole::Developer)
    }

    /// The user's ID.
    pub fn user_id(&self) -> (r: &str)
        ensures
            r@ == self.claims.sub@,
    {
        self.claims.sub.as_str()
    }

    /// The project's ID.
    pub fn project_id(&self) -> (r: &str)
        ensures
            r@ == self.project_id@,
    {
        self.project_id.as_str()
    }

    /// The user's role.
    pub fn role(&self) -> (r: UserRole)
        ensures
            r == self.claims.spec_role(),
    {
        self.claims.user_role()
    }
}

/// What the authentication of a request does before any token is checked.
#[derive(Debug, Clone)]
pub enum JwtGate {
    /// Let the request through unchecked
    Pass,
    /// Refuse it as unauthorized
    Reject,
    /// Validate this bearer token
    Validate(String),
}

/// The first decision on a request: one from this machine, or a CORS
/// preflight, passes; one without a text `Authorization` header holding a
/// bearer token is refused; otherwise its token is validated.
pub open spec fn spec_jwt_gate(is_localhost: bool, is_preflight: bool, auth_header: Option<Option<Seq<char>>>) -> JwtGate {
    if is_localhost || is_preflight {
        JwtGate::Pass
    } else {
        match auth_header {
            Some(Some(h)) => if seq_starts_with(h, BEARER_PREFIX@) {
                JwtGate::Validate(arbitrary())
            } else {
                JwtGate::Reject
            },
            _ => JwtGate::Reject,
        }
    }
}

/// The view of a header that may be missing (`None`) or not text (`Some(None)`).
pub open spec fn header_view(h: Option<Option<&str>>) -> Option<Option<Seq<char>>> {
    match h {
        Some(Some(s)) => Some(Some(s@)),
        Some(None) => Some(None),
        None => None,
    }
}

/// Decides what JWT authentication does first with a request, from whether
/// it comes from this machine, whether it is a CORS preflight (`OPTIONS`),
/// and its `Authorization` header.
pub fn jwt_gate(is_localhost: bool, is_preflight: bool, auth_header: Option<Option<&str>>) -> (r: JwtGate)
    ensures
        match (r, spec_jwt_gate(is_localhost, is_preflight, header_view(auth_header))) {
            (JwtGate::Pass, JwtGate::Pass) => true,
            (JwtGate::Reject, JwtGate::Reject) => true,
            (JwtGate::Validate(t), JwtGate::Validate(_)) => auth_header matches Some(Some(h))
                && t@ == h@.subrange(7, h@.len() as int),
            _ => false,
        },
{
    if is_localhost || is_preflight {
        return JwtGate::Pass;
    }
    match auth_header {
        Some(Some(h)) => match extract_token_from_header(h) {
            Ok(token) => JwtGate::Validate(owned(token)),
            Err(_) => JwtGate::Reject,
        },
        _ => JwtGate::Reject,
    }
}

/// Where the validation of a bearer token stands.
#[derive(Debug, Clone, Copy, PartialEq, Eq, Structural)]
pub enum JwtPhase {
    /// The token is being validated against the cached keys
    FirstValidation,
    /// The keys are being fetched again
    Refreshing,
    /// The token is being validated against the fetched keys
    SecondValidation,
}

/// What came back from the outside work.
#[derive(Debug, Clone, Copy, PartialEq, Eq, Structural)]
pub enum JwtEvent {
    /// A validation succeeded (true) or failed
    Validated(bool),
    /// A refresh of the keys succeeded (true) or failed
    Refreshed(bool),
}

/// What to do next.
#[derive(Debug, Clone, Copy, PartialEq, Eq, Structural)]
pub enum JwtAction {
    /// Let the request through with the validated claims
    Accept,
    /// Refuse it as unauthorized
    Reject,
    /// Fetch the keys again
    RefreshKeys,
    /// Validate the token again
    ValidateAgain,
}

/// The step of token validation: a token that fails against the cached
/// keys is tried once more after the keys are fetched again; a failed fetch
/// or a second failure refuses the request.
pub open spec fn spec_jwt_step(phase: JwtPhase, event: JwtEvent) -> (Option<JwtPhase>, JwtAction) {
    match (phase, event) {
        (JwtPhase::FirstValidation, JwtEvent::Validated(true)) => (None, JwtAction::Accept),
        (JwtPhase::FirstValidation, JwtEvent::Validated(false)) => (Some(JwtPhase::Refreshing), JwtAction::RefreshKeys),
        (JwtPhase::Refreshing, JwtEvent::Refreshed(true)) => (Some(JwtPhase::SecondValidation), JwtAction::ValidateAgain),
        (JwtPhase::Refreshing, JwtEvent::Refreshed(false)) => (None, JwtAction::Reject),
        (JwtPhase::SecondValidation, JwtEvent::Validated(true)) => (None, JwtAction::Accept),
        (JwtPhase::SecondValidation, JwtEvent::Validated(false)) => (None, JwtAction::Reject),
        _ => (None, JwtAction::Reject),
    }
}

/// The next phase (none when done) and action of token validation.
pub fn jwt_step(phase: JwtPhase, event: JwtEvent) -> (r: (Option<JwtPhase>, JwtAction))
    ensures
        r == spec_jwt_step(phase, event),
{
    match (phase, event) {
        (JwtPhase::FirstValidation, JwtEvent::Validated(true)) => (None, JwtAction::Accept),
        (JwtPhase::FirstValidation, JwtEvent::Validated(false)) => (Some(JwtPhase::Refreshing), JwtAction::RefreshKeys),
        (JwtPhase::Refreshing, JwtEvent::Refreshed(true)) => (Some(JwtPhase::SecondValidation), JwtAction::ValidateAgain),
        (JwtPhase::Refreshing, JwtEvent::Refreshed(false)) => (None, JwtAction::Reject),
        (JwtPhase::SecondValidation, JwtEvent::Validated(true)) => (None, JwtAction::Accept),
        (JwtPhase::SecondValidation, JwtEvent::Validated(false)) => (None, JwtAction::Reject),
        _ => (None, JwtAction::Reject),
    }
}

/// Validation ends within three steps: a request is accepted only after a
/// successful validation, and at most one refresh happens.
pub proof fn lemma_jwt_steps_end(phase: JwtPhase, event: JwtEvent)
    ensures
        spec_jwt_step(phase, event).1 == JwtAction::Accept ==> event == JwtEvent::Validated(true),
        spec_jwt_step(phase, event).0 == Some(JwtPhase::Refreshing) ==> phase == JwtPhase::FirstValidation,
        spec_jwt_step(phase, event).0 is Some ==> spec_jwt_step(phase, event).0 != Some(phase),
        phase == JwtPhase::SecondValidation ==> spec_jwt_step(phase, event).0 is None,
{
}

/// The bytes that the unpadded URL-safe base64 text `s` spells, if any.
pub uninterp spec fn base64_url_decoded(s: Seq<char>) -> Option<Seq<u8>>;

/// Decodes unpadded URL-safe base64 with `base64`'s `URL_SAFE_NO_PAD`
/// engine; on failure gives the decoder's error text.
#[verifier::external_body]
fn base64_url_decode(s: &str) -> (r: Result<Vec<u8>, String>)
    ensures
        match r {
            Ok(v) => base64_url_decoded(s@) == Some(v@),
            Err(_) => base64_url_decoded(s@) is None,
        },
{
    match base64::engine::general_purpose::URL_SAFE_NO_PAD.decode(s) {
        Ok(v) => Ok(v),
        Err(e) => Err(format!("{}", e)),
    }
}

/// The payload (middle part) of a JWT `header.payload.signature`, decoded
/// from base64 without verification; the text of the JSON claims.
pub fn decode_jwt_payload(token: &str) -> (r: Result<Vec<u8>, String>)
    ensures
        match r {
            Ok(v) => split_spec(token@, '.').len() == 3 && base64_url_decoded(split_spec(token@, '.')[1]) == Some(v@),
            Err(m) => split_spec(token@, '.').len() != 3 && m@ == "Invalid JWT format"@
                || split_spec(token@, '.').len() == 3 && base64_url_decoded(split_spec(token@, '.')[1]) is None
                && seq_starts_with(m@, "Failed to decode base64: "@),
        },
{
    let parts = split_chars(token, '.');
    if parts.len() != 3 {
        return Err(owned("Invalid JWT format"));
    }
    let payload = string_from_chars(parts[1].as_slice());
    match base64_url_decode(payload.as_str()) {
        Ok(bytes) => Ok(bytes),
        Err(e) => {
            let m = concat("Failed to decode base64: ", e.as_str());
            proof {
                assert(m@.subrange(0, "Failed to decode base64: "@.len() as int) =~= "Failed to decode base64: "@);
            }
            Err(m)
        },
    }
}

} // verus!
