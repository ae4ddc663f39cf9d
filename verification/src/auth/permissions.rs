//! The role each operation needs, and checks of a user's claims against an
//! operation, a project, or a resource they own.

use vstd::prelude::*;
use crate::auth::claims::{opt_view, role_covers, DynamicClaims, UserRole};
use crate::auth::middleware::{create_access_rejection, create_project_rejection, create_role_rejection, Rejection};
use crate::text::str_eq;

verus! {

/// The operations a user can perform.
#[derive(Debug, Clone, Copy, PartialEq, Eq, Structural)]
pub enum Operation {
    ViewModel,
    CreateModel,
    UpdateModel,
    DeleteModel,
    DeployModel,
    ViewAgent,
    CreateAgent,
    UpdateAgent,
    DeleteAgent,
    DeployAgent,
    ViewBilling,
    UpdateBillingInfo,
    ChangePlan,
    CancelSubscription,
    ManageUsers,
    ViewSystemStats,
    ConfigureSystem,
    CreateProject,
    ManageProjectAccess,
    DeleteProject,
}

/// The minimum role an operation needs: viewing models and agents needs
/// User, the admin operations need Admin, everything else needs Developer.
pub open spec fn spec_required_role(op: Operation) -> UserRole {
    match op {
        Operation::ViewModel | Operation::ViewAgent => UserRole::User,
        Operation::ManageUsers | Operation::ViewSystemStats | Operation::ConfigureSystem => UserRole::Admin,
        _ => UserRole::Developer,
    }
}

/// Whether an operation acts within a project: all but the global ones do.
pub open spec fn spec_requires_project(op: Operation) -> bool {
    match op {
        Operation::ManageUsers | Operation::ViewSystemStats | Operation::ConfigureSystem
        | Operation::CreateProject => false,
        _ => true,
    }
}

/// The description of an operation.
pub open spec fn spec_description(op: Operation) -> Seq<char> {
    match op {
        Operation::ViewModel => "view AI models"@,
        Operation::CreateModel => "create AI models"@,
        Operation::UpdateModel => "update AI models"@,
        Operation::DeleteModel => "delete AI models"@,
        Operation::DeployModel => "deploy AI models"@,
        Operation::ViewAgent => "view AI agents"@,
        Operation::CreateAgent => "create AI agents"@,
        Operation::UpdateAgent => "update AI agents"@,
        Operation::DeleteAgent => "delete AI agents"@,
        Operation::DeployAgent => "deploy AI agents"@,
        Operation::ViewBilling => "view billing information"@,
        Operation::UpdateBillingInfo => "update billing information"@,
        Operation::ChangePlan => "change subscription plan"@,
        Operation::CancelSubscription => "cancel subscription"@,
        Operation::ManageUsers => "manage users"@,
        Operation::ViewSystemStats => "view system statistics"@,
        Operation::ConfigureSystem => "configure system settings"@,
        Operation::CreateProject => "create new projects"@,
        Operation::ManageProjectAccess => "manage project access"@,
        Operation::DeleteProject => "delete projects"@,
    }
}

impl Operation {
    /// Get the minimum role required for this operation.
    pub fn required_role(&self) -> (r: UserRole)
        ensures
            r == spec_required_role(*self),
    {
        match self {
            Operation::ViewModel => UserRole::User,
            Operation::CreateModel => UserRole::Developer,
            Operation::UpdateModel => UserRole::Developer,
            Operation::DeleteModel => UserRole::Developer,
            Operation::DeployModel => UserRole::Developer,
            Operation::ViewAgent => UserRole::User,
            Operation::CreateAgent => UserRole::Developer,
            Operation::UpdateAgent => UserRole::Developer,
            Operation::DeleteAgent => UserRole::Developer,
            Operation::DeployAgent => UserRole::Developer,
            Operation::ViewBilling => UserRole::Developer,
            Operation::UpdateBillingInfo => UserRole::Developer,
            Operation::ChangePlan => UserRole::Developer,
            Operation::CancelSubscription => UserRole::Developer,
            Operation::ManageUsers => UserRole::Admin,
            Operation::ViewSystemStats => UserRole::Admin,
            Operation::ConfigureSystem => UserRole::Admin,
            Operation::CreateProject => UserRole::Developer,
            Operation::ManageProjectAccess => UserRole::Developer,
            Operation::DeleteProject => UserRole::Developer,
        }
    }

    /// Get a human-readable description of this operation.
    pub fn description(&self) -> (r: &'static str)
        ensures
            r@ == spec_description(*self),
    {
        match self {
            Operation::ViewModel => "view AI models",
            Operation::CreateModel => "create AI models",
            Operation::UpdateModel => "update AI models",
            Operation::DeleteModel => "delete AI models",
            Operation::DeployModel => "deploy AI models",
            Operation::ViewAgent => "view AI agents",
            Operation::CreateAgent => "create AI agents",
            Operation::UpdateAgent => "update AI agents",
            Operation::DeleteAgent => "delete AI agents",
            Operation::DeployAgent => "deploy AI agents",
            Operation::ViewBilling => "view billing information",
            Operation::UpdateBillingInfo => "update billing information",
            Operation::ChangePlan => "change subscription plan",
            Operation::CancelSubscription => "cancel subscription",
            Operation::ManageUsers => "manage users",
            Operation::ViewSystemStats => "view system statistics",
            Operation::ConfigureSystem => "configure system settings",
            Operation::CreateProject => "create new projects",
            Operation::ManageProjectAccess => "manage project access",
            Operation::DeleteProject => "delete projects",
        }
    }

    /// Returns true if this operation requires project context.
    pub fn requires_project(&self) -> (r: bool)
        ensures
            r == spec_requires_project(*self),
    {
        match self {
            Operation::ManageUsers => false,
            Operation::ViewSystemStats => false,
            Operation::ConfigureSystem => false,
            Operation::CreateProject => false,
            _ => true,
        }
    }
}

/// The outcome of checking a role: allowed, or refused with the role refusal.
pub open spec fn spec_role_check(claims: DynamicClaims, required: UserRole) -> Result<(), Rejection> {
    if role_covers(claims.spec_role(), required) {
        Ok(())
    } else {
        Err(Rejection::Role { required_role: required, user_role: Some(claims.spec_role()) })
    }
}

/// `r` is the project refusal for `project_id` and the claims' project.
pub open spec fn is_project_rejection(r: Rejection, project_id: Seq<char>, claims: DynamicClaims) -> bool {
    r matches Rejection::Project { project_id: p, user_project: u }
        && p@ == project_id && opt_view(u) == claims.spec_project()
}

/// `r` is the combined refusal for `project_id` and `required`.
pub open spec fn is_access_rejection(r: Rejection, project_id: Seq<char>, required: UserRole, claims: DynamicClaims) -> bool {
    r matches Rejection::Access { project_id: p, required_role: rr, has_project_access: hp,
        has_role_access: hr, user_project: up, user_role: ur }
        && p@ == project_id && rr == required
        && hp == claims.spec_is_for_project(project_id)
        && hr == role_covers(claims.spec_role(), required)
        && opt_view(up) == claims.spec_project()
        && ur == claims.spec_role()
}

/// Check if a user has the role that an operation needs.
pub fn can_perform_operation(claims: &DynamicClaims, operation: Operation) -> (r: Result<(), Rejection>)
    ensures
        r == spec_role_check(*claims, spec_required_role(operation)),
{
    let required_role = operation.required_role();
    if !claims.has_role(&required_role) {
        return Err(create_role_rejection(required_role, Some(claims.user_role())));
    }
    Ok(())
}

/// Check if a user may perform an operation in a project: the token must be
/// for the project when the operation acts within one, and the role must do.
pub fn can_perform_project_operation(claims: &DynamicClaims, operation: Operation, project_id: &str) -> (r: Result<(), Rejection>)
    ensures
        if spec_requires_project(operation) && !claims.spec_is_for_project(project_id@) {
            r matches Err(j) && is_project_rejection(j, project_id@, *claims)
        } else {
            r == spec_role_check(*claims, spec_required_role(operation))
        },
{
    if operation.requires_project() && !claims.is_for_project(project_id) {
        return Err(create_project_rejection(project_id, claims.project_id()));
    }
    let required_role = operation.required_role();
    if !claims.has_role(&required_role) {
        return Err(create_role_rejection(required_role, Some(claims.user_role())));
    }
    Ok(())
}

/// Check if a user can manage a model (create, update, delete).
pub fn can_manage_model(claims: &DynamicClaims, project_id: &str) -> (r: Result<(), Rejection>)
    ensures
        if !claims.spec_is_for_project(project_id@) {
            r matches Err(j) && is_project_rejection(j, project_id@, *claims)
        } else {
            r == spec_role_check(*claims, UserRole::Developer)
        },
{
    can_perform_project_operation(claims, Operation::UpdateModel, project_id)
}

/// Check if a user can view models in a project.
pub fn can_view_models(claims: &DynamicClaims, project_id: &str) -> (r: Result<(), Rejection>)
    ensures
        if !claims.spec_is_for_project(project_id@) {
            r matches Err(j) && is_project_rejection(j, project_id@, *claims)
        } else {
            r == spec_role_check(*claims, UserRole::User)
        },
{
    can_perform_project_operation(claims, Operation::ViewModel, project_id)
}

/// Check if a user can deploy a model.
pub fn can_deploy_model(claims: &DynamicClaims, project_id: &str) -> (r: Result<(), Rejection>)
    ensures
        if !claims.spec_is_for_project(project_id@) {
            r matches Err(j) && is_project_rejection(j, project_id@, *claims)
        } else {
            r == spec_role_check(*claims, UserRole::Developer)
        },
{
    can_perform_project_operation(claims, Operation::DeployModel, project_id)
}

/// Check if a user can manage an agent (create, update, delete).
pub fn can_manage_agent(claims: &DynamicClaims, project_id: &str) -> (r: Result<(), Rejection>)
    ensures
        if !claims.spec_is_for_project(project_id@) {
            r matches Err(j) && is_project_rejection(j, project_id@, *claims)
        } else {
            r == spec_role_check(*claims, UserRole::Developer)
        },
{
    can_perform_project_operation(claims, Operation::UpdateAgent, project_id)
}

/// Check if a user can view agents in a project.
pub fn can_view_agents(claims: &DynamicClaims, project_id: &str) -> (r: Result<(), Rejection>)
    ensures
        if !claims.spec_is_for_project(project_id@) {
            r matches Err(j) && is_project_rejection(j, project_id@, *claims)
        } else {
            r == spec_role_check(*claims, UserRole::User)
        },
{
    can_perform_project_operation(claims, Operation::ViewAgent, project_id)
}

/// Check if a user can deploy an agent.
pub fn can_deploy_agent(claims: &DynamicClaims, project_id: &str) -> (r: Result<(), Rejection>)
    ensures
        if !claims.spec_is_for_project(project_id@) {
            r matches Err(j) && is_project_rejection(j, project_id@, *claims)
        } else {
            r == spec_role_check(*claims, UserRole::Developer)
        },
{
    can_perform_project_operation(claims, Operation::DeployAgent, project_id)
}

/// Check if a user can manage billing information.
pub fn can_manage_billing(claims: &DynamicClaims, project_id: &str) -> (r: Result<(), Rejection>)
    ensures
        if !claims.spec_is_for_project(project_id@) {
            r matches Err(j) && is_project_rejection(j, project_id@, *claims)
        } else {
            r == spec_role_check(*claims, UserRole::Developer)
        },
{
    can_perform_project_operation(claims, Operation::UpdateBillingInfo, project_id)
}

/// Check if a user can view billing information.
pub fn can_view_billing(claims: &DynamicClaims, project_id: &str) -> (r: Result<(), Rejection>)
    ensures
        if !claims.spec_is_for_project(project_id@) {
            r matches Err(j) && is_project_rejection(j, project_id@, *claims)
        } else {
            r == spec_role_check(*claims, UserRole::Developer)
        },
{
    can_perform_project_operation(claims, Operation::ViewBilling, project_id)
}

/// Check if a user can modify subscription plans.
pub fn can_modify_subscription(claims: &DynamicClaims, project_id: &str) -> (r: Result<(), Rejection>)
    ensures
        if !claims.spec_is_for_project(project_id@) {
            r matches Err(j) && is_project_rejection(j, project_id@, *claims)
        } else {
            r == spec_role_check(*claims, UserRole::Developer)
        },
{
    can_perform_project_operation(claims, Operation::ChangePlan, project_id)
}

/// Check if a user can manage other users (admin only).
pub fn can_manage_users(claims: &DynamicClaims) -> (r: Result<(), Rejection>)
    ensures
        r == spec_role_check(*claims, UserRole::Admin),
{
    can_perform_operation(claims, Operation::ManageUsers)
}

/// Check if a user can view system statistics (admin only).
pub fn can_view_system_stats(claims: &DynamicClaims) -> (r: Result<(), Rejection>)
    ensures
        r == spec_role_check(*claims, UserRole::Admin),
{
    can_perform_operation(claims, Operation::ViewSystemStats)
}

/// Check if a user can configure system settings (admin only).
pub fn can_configure_system(claims: &DynamicClaims) -> (r: Result<(), Rejection>)
    ensures
        r == spec_role_check(*claims, UserRole::Admin),
{
    can_perform_operation(claims, Operation::ConfigureSystem)
}

/// Check if a user can manage project access.
pub fn can_manage_project_access(claims: &DynamicClaims, project_id: &str) -> (r: Result<(), Rejection>)
    ensures
        if !claims.spec_is_for_project(project_id@) {
            r matches Err(j) && is_project_rejection(j, project_id@, *claims)
        } else {
            r == spec_role_check(*claims, UserRole::Developer)
        },
{
    can_perform_project_operation(claims, Operation::ManageProjectAccess, project_id)
}

/// Check if a user can delete the project.
pub fn can_delete_project(claims: &DynamicClaims, project_id: &str) -> (r: Result<(), Rejection>)
    ensures
        if !claims.spec_is_for_project(project_id@) {
            r matches Err(j) && is_project_rejection(j, project_id@, *claims)
        } else {
            r == spec_role_check(*claims, UserRole::Developer)
        },
{
    can_perform_project_operation(claims, Operation::DeleteProject, project_id)
}

/// Check if a user owns a resource of their project, or is an admin.
pub fn has_owner_or_admin_access(claims: &DynamicClaims, owner_id: &str, project_id: &str) -> (r: Result<(), Rejection>)
    ensures
        if claims.spec_role() == UserRole::Admin {
            r is Ok
        } else if !claims.spec_is_for_project(project_id@) {
            r matches Err(j) && is_project_rejection(j, project_id@, *claims)
        } else if claims.sub@ != owner_id@ {
            r matches Err(j) && is_access_rejection(j, project_id@, UserRole::Developer, *claims)
        } else {
            r is Ok
        },
{
    if claims.is_admin() {
        return Ok(());
    }
    let in_project = claims.is_for_project(project_id);
    if in_project && !str_eq(claims.sub.as_str(), owner_id) {
        return Err(create_access_rejection(project_id, UserRole::Developer, claims));
    }
    if !in_project {
        return Err(create_project_rejection(project_id, claims.project_id()));
    }
    Ok(())
}

/// Check a project and role, then a custom condition.
pub fn check_custom_access<F: FnOnce() -> bool>(
    claims: &DynamicClaims,
    project_id: Option<&str>,
    required_role: UserRole,
    custom_check: F,
) -> (r: Result<(), Rejection>)
    requires
        custom_check.requires(()),
    ensures
        match project_id {
            Some(pid) if !claims.spec_is_for_project(pid@) =>
                r matches Err(j) && is_project_rejection(j, pid@, *claims),
            _ => if !role_covers(claims.spec_role(), required_role) {
                r == spec_role_check(*claims, required_role)
            } else {
                match r {
                    Ok(()) => custom_check.ensures((), true),
                    Err(j) => custom_check.ensures((), false) && is_access_rejection(j,
                        match project_id { Some(pid) => pid@, None => Seq::<char>::empty() },
                        required_role, *claims),
                }
            },
        },
{
    if let Some(pid) = project_id {
        if !claims.is_for_project(pid) {
            return Err(create_project_rejection(pid, claims.project_id()));
        }
    }
    if !claims.has_role(&required_role) {
        return Err(create_role_rejection(required_role, Some(claims.user_role())));
    }
    if !custom_check() {
        let pid = match project_id {
            Some(p) => p,
            None => "",
        };
        proof {
            reveal_strlit("");
            assert(""@ =~= Seq::<char>::empty());
        }
        return Err(create_access_rejection(pid, required_role, claims));
    }
    Ok(())
}

/// Objects that have an owner.
pub trait Owned {
    /// The owner's ID.
    spec fn spec_owner_id(&self) -> Seq<char>;

    /// The owner's ID.
    fn owner_id(&self) -> (r: &str)
        ensures
            r@ == self.spec_owner_id();
}

/// Objects that belong to a project.
pub trait ProjectScoped {
    /// The project's ID.
    spec fn spec_project_id(&self) -> Seq<char>;

    /// The project's ID.
    fn project_id(&self) -> (r: &str)
        ensures
            r@ == self.spec_project_id();
}

/// Check if a user can manage a resource: an admin can manage any; others
/// only within their project, and only their own unless they are developers.
pub fn can_manage_resource<T: Owned + ProjectScoped>(claims: &DynamicClaims, resource: &T) -> (r: Result<(), Rejection>)
    ensures
        if !claims.spec_is_for_project(resource.spec_project_id()) {
            if claims.spec_role() == UserRole::Admin {
                r is Ok
            } else {
                r matches Err(j) && is_project_rejection(j, resource.spec_project_id(), *claims)
            }
        } else if claims.sub@ != resource.spec_owner_id() && claims.spec_role() == UserRole::User {
            r == spec_role_check(*claims, UserRole::Developer)
        } else {
            r is Ok
        },
{
    let project_id = resource.project_id();
    if !claims.is_for_project(project_id) {
        if claims.is_admin() {
            return Ok(());
        }
        return Err(create_project_rejection(project_id, claims.project_id()));
    }
    let owner_id = resource.owner_id();
    if !str_eq(claims.sub.as_str(), owner_id) && !claims.is_developer() {
        return Err(create_role_rejection(UserRole::Developer, Some(claims.user_role())));
    }
    Ok(())
}


/// An administrator may perform every operation; a role allowed an
/// operation keeps it when the role is raised.
pub proof fn lemma_role_check_monotone(claims: DynamicClaims, op: Operation, stronger: UserRole)
    ensures
        claims.spec_role() == UserRole::Admin ==> spec_role_check(claims, spec_required_role(op)) is Ok,
        spec_role_check(claims, spec_required_role(op)) is Ok && role_covers(stronger, claims.spec_role())
            ==> role_covers(stronger, spec_required_role(op)),
{
}


/// The length of an operation's description, and its first, third and
/// third-to-last characters: enough to tell every description apart.
pub open spec fn description_signature(op: Operation) -> (nat, char, char, char) {
    match op {
        Operation::ViewModel => (14nat, 'v', 'e', 'e'),
        Operation::CreateModel => (16nat, 'c', 'e', 'e'),
        Operation::UpdateModel => (16nat, 'u', 'd', 'e'),
        Operation::DeleteModel => (16nat, 'd', 'l', 'e'),
        Operation::DeployModel => (16nat, 'd', 'p', 'e'),
        Operation::ViewAgent => (14nat, 'v', 'e', 'n'),
        Operation::CreateAgent => (16nat, 'c', 'e', 'n'),
        Operation::UpdateAgent => (16nat, 'u', 'd', 'n'),
        Operation::DeleteAgent => (16nat, 'd', 'l', 'n'),
        Operation::DeployAgent => (16nat, 'd', 'p', 'n'),
        Operation::ViewBilling => (24nat, 'v', 'e', 'i'),
        Operation::UpdateBillingInfo => (26nat, 'u', 'd', 'i'),
        Operation::ChangePlan => (24nat, 'c', 'a', 'l'),
        Operation::CancelSubscription => (19nat, 'c', 'n', 'i'),
        Operation::ManageUsers => (12nat, 'm', 'n', 'e'),
        Operation::ViewSystemStats => (22nat, 'v', 'e', 'i'),
        Operation::ConfigureSystem => (25nat, 'c', 'n', 'n'),
        Operation::CreateProject => (19nat, 'c', 'e', 'c'),
        Operation::ManageProjectAccess => (21nat, 'm', 'n', 'e'),
        Operation::DeleteProject => (15nat, 'd', 'l', 'c'),
    }
}

/// Every operation has a non-empty description of its own: distinct
/// operations have distinct descriptions.
pub proof fn lemma_descriptions_distinct(a: Operation, b: Operation)
    ensures
        spec_description(a).len() > 0,
        a != b ==> spec_description(a) != spec_description(b),
{
    reveal_strlit("view AI models");
    reveal_strlit("create AI models");
    reveal_strlit("update AI models");
    reveal_strlit("delete AI models");
    reveal_strlit("deploy AI models");
    reveal_strlit("view AI agents");
    reveal_strlit("create AI agents");
    reveal_strlit("update AI agents");
    reveal_strlit("delete AI agents");
    reveal_strlit("deploy AI agents");
    reveal_strlit("view billing information");
    reveal_strlit("update billing information");
    reveal_strlit("change subscription plan");
    reveal_strlit("cancel subscription");
    reveal_strlit("manage users");
    reveal_strlit("view system statistics");
    reveal_strlit("configure system settings");
    reveal_strlit("create new projects");
    reveal_strlit("manage project access");
    reveal_strlit("delete projects");
    let da = spec_description(a);
    let db = spec_description(b);
    assert(description_signature(a) == (da.len(), da[0], da[2], da[da.len() - 3]));
    assert(description_signature(b) == (db.len(), db[0], db[2], db[db.len() - 3]));
}

/// Only viewing models and agents is open to the User role: every other
/// operation needs at least Developer (and only managing users, viewing
/// system statistics and configuring the system need Admin), so a token
/// whose role is User is refused it with the role refusal naming the
/// required role, and is allowed the two viewing operations.
pub proof fn lemma_user_role_only_views(claims: DynamicClaims, op: Operation)
    ensures
        (op == Operation::ViewModel || op == Operation::ViewAgent) ==> spec_required_role(op) == UserRole::User,
        !(op == Operation::ViewModel || op == Operation::ViewAgent) ==> spec_required_role(op) != UserRole::User,
        spec_required_role(op) == UserRole::Admin <==> (op == Operation::ManageUsers || op == Operation::ViewSystemStats
            || op == Operation::ConfigureSystem),
        claims.spec_role() == UserRole::User ==> (spec_role_check(claims, spec_required_role(op)) is Ok
            <==> (op == Operation::ViewModel || op == Operation::ViewAgent)),
        claims.spec_role() == UserRole::User && !(op == Operation::ViewModel || op == Operation::ViewAgent)
            ==> spec_role_check(claims, spec_required_role(op)) == Err::<(), Rejection>(Rejection::Role {
                required_role: spec_required_role(op),
                user_role: Some(UserRole::User),
            }),
{
}

} // verus!
