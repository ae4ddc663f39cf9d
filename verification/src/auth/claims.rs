//! Roles and the claims carried by an authentication token.

use vstd::prelude::*;
use crate::text::{str_eq, to_lowercase, unicode_lowercase, is_ascii_seq, ascii_lower};

verus! {

/// The roles a user can hold, from most to least powerful.
#[derive(Debug, Clone, Copy, PartialEq, Eq, Structural)]
pub enum UserRole {
    /// Administrator with full system access
    Admin,
    /// Developer with project management capabilities
    Developer,
    /// Standard user with limited permissions
    User,
}

/// The text `admin`.
pub open spec fn admin_text() -> Seq<char> {
    seq!['a', 'd', 'm', 'i', 'n']
}

/// The text `developer`.
pub open spec fn developer_text() -> Seq<char> {
    seq!['d', 'e', 'v', 'e', 'l', 'o', 'p', 'e', 'r']
}

/// The text `user`.
pub open spec fn user_text() -> Seq<char> {
    seq!['u', 's', 'e', 'r']
}

/// The role that a lower-case role name stands for.
pub open spec fn role_from_lower(s: Seq<char>) -> Option<UserRole> {
    if s == admin_text() {
        Some(UserRole::Admin)
    } else if s == developer_text() {
        Some(UserRole::Developer)
    } else if s == user_text() {
        Some(UserRole::User)
    } else {
        None
    }
}

/// The role a role name stands for, ignoring case.
pub open spec fn role_from_text(s: Seq<char>) -> Option<UserRole> {
    role_from_lower(unicode_lowercase(s))
}

/// The lower-case name of a role.
pub open spec fn role_name(r: UserRole) -> Seq<char> {
    match r {
        UserRole::Admin => admin_text(),
        UserRole::Developer => developer_text(),
        UserRole::User => user_text(),
    }
}

/// How powerful a role is: Admin above Developer above User.
pub open spec fn role_rank(r: UserRole) -> nat {
    match r {
        UserRole::Admin => 2,
        UserRole::Developer => 1,
        UserRole::User => 0,
    }
}

/// `held` is at least as powerful as `required`.
pub open spec fn role_covers(held: UserRole, required: UserRole) -> bool {
    role_rank(held) >= role_rank(required)
}

impl Default for UserRole {
    fn default() -> (r: Self)
        ensures
            r == UserRole::User,
    {
        UserRole::User
    }
}

/// Compares a lower-case text with the name of each role.
fn role_from_lowered(lower: &str) -> (r: Option<UserRole>)
    ensures
        r == role_from_lower(lower@),
{
    proof {
        reveal_strlit("admin");
        reveal_strlit("developer");
        reveal_strlit("user");
        assert("admin"@ =~= admin_text());
        assert("developer"@ =~= developer_text());
        assert("user"@ =~= user_text());
    }
    if str_eq(lower, "admin") {
        Some(UserRole::Admin)
    } else if str_eq(lower, "developer") {
        Some(UserRole::Developer)
    } else if str_eq(lower, "user") {
        Some(UserRole::User)
    } else {
        None
    }
}

impl UserRole {
    /// Parse a role string into a UserRole enum, ignoring case.
    pub fn from_str(role: &str) -> (r: Option<Self>)
        ensures
            r == role_from_text(role@),
            is_ascii_seq(role@) ==> r == role_from_lower(ascii_lower(role@)),
    {
        let lower = to_lowercase(role);
        role_from_lowered(lower.as_str())
    }

    /// Check if this role is at least as powerful as the required role.
    pub fn has_permission(&self, required_role: &UserRole) -> (r: bool)
        ensures
            r == role_covers(*self, *required_role),
    {
        match (self, required_role) {
            (UserRole::Admin, _) => true,
            (UserRole::Developer, UserRole::Developer) => true,
            (UserRole::Developer, UserRole::User) => true,
            (UserRole::User, UserRole::User) => true,
            _ => false,
        }
    }
}

/// Every role holds its own permissions.
pub proof fn lemma_permission_reflexive(r: UserRole)
    ensures
        role_covers(r, r),
{
}

/// Holding permissions passes down the role order.
pub proof fn lemma_permission_transitive(a: UserRole, b: UserRole, c: UserRole)
    requires
        role_covers(a, b),
        role_covers(b, c),
    ensures
        role_covers(a, c),
{
}

/// Two roles that cover each other are the same role.
pub proof fn lemma_permission_antisymmetric(a: UserRole, b: UserRole)
    requires
        role_covers(a, b),
        role_covers(b, a),
    ensures
        a == b,
{
}

/// Of any two roles, one covers the other; Admin covers every role and every
/// role covers User.
pub proof fn lemma_permission_total(a: UserRole, b: UserRole)
    ensures
        role_covers(a, b) || role_covers(b, a),
        role_covers(UserRole::Admin, a),
        role_covers(a, UserRole::User),
{
}

/// The name of every role parses back to that role, in any ASCII case.
pub proof fn lemma_role_name_roundtrip(r: UserRole)
    ensures
        role_from_lower(role_name(r)) == Some(r),
        is_ascii_seq(role_name(r)),
        ascii_lower(role_name(r)) == role_name(r),
{
    assert(ascii_lower(role_name(r)) =~= role_name(r));
}

/// Custom JWT claims carried by a Dynamic Auth token: the standard claims,
/// the project the token is valid for, the role, and user details.
#[derive(Debug, Clone)]
pub struct DynamicClaims {
    /// Standard JWT subject claim - usually contains user ID
    pub sub: String,
    /// JWT expiration timestamp
    pub exp: u64,
    /// JWT issued-at timestamp
    pub iat: u64,
    /// JWT issuer
    pub iss: Option<String>,
    /// JWT audience
    pub aud: Option<String>,
    /// JWT not-before timestamp - token not valid before this time
    pub nbf: Option<u64>,
    /// JWT ID - unique identifier for this token
    pub jti: Option<String>,
    /// Project ID the token is valid for
    pub project: Option<String>,
    /// User role for role-based access control
    pub role: Option<String>,
    /// User's wallet address
    pub wallet_address: Option<String>,
    /// User's email address
    pub email: Option<String>,
    /// User's name or display name
    pub name: Option<String>,
    /// User ID in Dynamic Auth system
    pub dynamic_user_id: Option<String>,
    /// Environment ID in Dynamic Auth system
    pub env_id: Option<String>,
    /// Session ID
    pub sid: Option<String>,
    /// Any other claims, each by name with its value as JSON text
    pub additional_claims: Vec<(String, String)>,
}

/// The view of an optional string.
pub open spec fn opt_view(o: Option<String>) -> Option<Seq<char>> {
    match o {
        Some(s) => Some(s@),
        None => None,
    }
}

/// The view of an optional string slice.
pub open spec fn opt_str_view(o: Option<&str>) -> Option<Seq<char>> {
    match o {
        Some(s) => Some(s@),
        None => None,
    }
}

/// Borrows the contents of an optional string.
pub fn opt_as_str(o: &Option<String>) -> (r: Option<&str>)
    ensures
        opt_str_view(r) == opt_view(*o),
{
    match o {
        Some(s) => Some(s.as_str()),
        None => None,
    }
}

/// The role that a role claim stands for; a missing or unknown role is User.
pub open spec fn claimed_role(role: Option<String>) -> UserRole {
    match role {
        Some(s) => match role_from_text(s@) {
            Some(r) => r,
            None => UserRole::User,
        },
        None => UserRole::User,
    }
}

impl DynamicClaims {
    /// The project the token is valid for.
    pub open spec fn spec_project(&self) -> Option<Seq<char>> {
        opt_view(self.project)
    }

    /// The token is valid for `project_id`.
    pub open spec fn spec_is_for_project(&self, project_id: Seq<char>) -> bool {
        self.spec_project() == Some(project_id)
    }

    /// The role of the token's holder.
    pub open spec fn spec_role(&self) -> UserRole {
        claimed_role(self.role)
    }

    /// Get the project ID, if available.
    pub fn project_id(&self) -> (r: Option<&str>)
        ensures
            opt_str_view(r) == self.spec_project(),
    {
        opt_as_str(&self.project)
    }

    /// Check if token is associated with a specific project.
    pub fn is_for_project(&self, project_id: &str) -> (r: bool)
        ensures
            r == self.spec_is_for_project(project_id@),
    {
        match &self.project {
            Some(p) => str_eq(p.as_str(), project_id),
            None => false,
        }
    }

    /// Get the user role, defaulting to User if not specified or unknown.
    pub fn user_role(&self) -> (r: UserRole)
        ensures
            r == self.spec_role(),
    {
        match &self.role {
            Some(role_str) => match UserRole::from_str(role_str.as_str()) {
                Some(r) => r,
                None => UserRole::default(),
            },
            None => UserRole::default(),
        }
    }

    /// Check if the user has the required role.
    pub fn has_role(&self, required_role: &UserRole) -> (r: bool)
        ensures
            r == role_covers(self.spec_role(), *required_role),
    {
        self.user_role().has_permission(required_role)
    }

    /// Check if the user is an admin.
    pub fn is_admin(&self) -> (r: bool)
        ensures
            r == (self.spec_role() == UserRole::Admin),
    {
        self.has_role(&UserRole::Admin)
    }

    /// Check if the user is a developer (or admin).
    pub fn is_developer(&self) -> (r: bool)
        ensures
            r == (self.spec_role() != UserRole::User),
    {
        self.has_role(&UserRole::Developer)
    }

    /// Get the user's email address, if available.
    pub fn email(&self) -> (r: Option<&str>)
        ensures
            opt_str_view(r) == opt_view(self.email),
    {
        opt_as_str(&self.email)
    }

    /// Get the user's wallet address, if available.
    pub fn wallet_address(&self) -> (r: Option<&str>)
        ensures
            opt_str_view(r) == opt_view(self.wallet_address),
    {
        opt_as_str(&self.wallet_address)
    }

    /// Get the user's name, if available.
    pub fn name(&self) -> (r: Option<&str>)
        ensures
            opt_str_view(r) == opt_view(self.name),
    {
        opt_as_str(&self.name)
    }

    /// The token is valid at `current_time`: not expired, and not before its
    /// not-before time when it has one.
    pub open spec fn spec_valid_time(&self, current_time: u64) -> bool {
        &&& current_time < self.exp
        &&& match self.nbf {
            Some(nbf) => nbf <= current_time,
            None => true,
        }
    }

    /// Check if the token is valid at `current_time` (expiry and not-before).
    pub fn is_valid_time(&self, current_time: u64) -> (r: bool)
        ensures
            r == self.spec_valid_time(current_time),
    {
        if self.exp <= current_time {
            return false;
        }
        if let Some(nbf) = self.nbf {
            if current_time < nbf {
                return false;
            }
        }
        true
    }
}

} // verus!
