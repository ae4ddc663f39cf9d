//! Who may change an agent, and which addresses are administrators.

use vstd::prelude::*;
use crate::helpers::account::{spec_same_address, same_address, strip_0x, strip_0x_prefix};
use crate::text::{seq_starts_with, starts_with, str_eq, to_lowercase, unicode_lowercase};

verus! {

/// The administrator addresses: `0xadmin` in any case, or any address
/// starting with `0x000admin`.
pub open spec fn spec_is_admin_address(address: Seq<char>) -> bool {
    unicode_lowercase(address) == "0xadmin"@ || seq_starts_with(address, "0x000admin"@)
}

/// Whether `address` is an administrator address.
pub fn is_admin_address(address: &str) -> (r: bool)
    ensures
        r == spec_is_admin_address(address@),
{
    let lower = to_lowercase(address);
    str_eq(lower.as_str(), "0xadmin") || starts_with(address, "0x000admin")
}

/// Why an agent update was refused.
#[derive(Debug, Clone, Copy, PartialEq, Eq, Structural)]
pub enum AgentUpdateRefusal {
    /// The requester may not change this agent
    NotPermitted,
    /// The update would change the agent's owner
    OwnerChange,
}

impl AgentUpdateRefusal {
    /// The message of the refusal (status 403).
    pub fn message(&self) -> (r: &'static str)
        ensures
            r@ == match *self {
                AgentUpdateRefusal::NotPermitted => "You don't have permission to update this agent"@,
                AgentUpdateRefusal::OwnerChange => "Cannot change agent owner_id via update. Use transfer operation."@,
            },
    {
        match self {
            AgentUpdateRefusal::NotPermitted => "You don't have permission to update this agent",
            AgentUpdateRefusal::OwnerChange => "Cannot change agent owner_id via update. Use transfer operation.",
        }
    }
}

/// The decision on an update of an agent owned by `owner` that names
/// `new_owner`: a request from this machine may do anything; a signed one
/// from the owner or an administrator may update, but only an
/// administrator may change the owner; others may not.
pub open spec fn spec_agent_update_check(is_localhost: bool, authenticated: Option<Seq<char>>, authenticated_is_admin: bool,
    owner: Seq<char>, new_owner: Seq<char>) -> Option<AgentUpdateRefusal>
{
    let can_update = is_localhost || match authenticated {
        Some(a) => spec_same_address(a, strip_0x(owner)) || authenticated_is_admin,
        None => false,
    };
    let owner_change = !spec_same_address(strip_0x(new_owner), strip_0x(owner));
    let can_change_owner = is_localhost || (authenticated is Some && authenticated_is_admin);
    if !can_update {
        Some(AgentUpdateRefusal::NotPermitted)
    } else if owner_change && !can_change_owner {
        Some(AgentUpdateRefusal::OwnerChange)
    } else {
        None
    }
}

/// Checks an update of an agent owned by `owner` that names `new_owner`,
/// asked from this machine or by the signer `authenticated`, who is an
/// administrator or not.
pub fn agent_update_check(is_localhost: bool, authenticated: Option<&str>, authenticated_is_admin: bool, owner: &str,
    new_owner: &str) -> (r: Option<AgentUpdateRefusal>)
    ensures
        r == spec_agent_update_check(is_localhost, crate::api::opt_seq(authenticated), authenticated_is_admin, owner@, new_owner@),
{
    let owner_plain = strip_0x_prefix(owner);
    let can_update = if is_localhost {
        true
    } else {
        match authenticated {
            Some(a) => same_address(a, owner_plain) || authenticated_is_admin,
            None => false,
        }
    };
    if !can_update {
        return Some(AgentUpdateRefusal::NotPermitted);
    }
    let owner_change = !same_address(strip_0x_prefix(new_owner), owner_plain);
    if owner_change {
        let can_change_owner = is_localhost || (authenticated.is_some() && authenticated_is_admin);
        if !can_change_owner {
            return Some(AgentUpdateRefusal::OwnerChange);
        }
    }
    None
}

/// Whether a requester may see an agent: a request from this machine, an
/// administrator or the owner may see any agent; anyone may see a public one.
pub open spec fn spec_may_view_agent(is_localhost: bool, authenticated: Option<Seq<char>>, authenticated_is_admin: bool,
    owner: Seq<char>, is_private: bool) -> bool
{
    ||| is_localhost
    ||| !is_private
    ||| match authenticated {
        Some(a) => authenticated_is_admin || spec_same_address(strip_0x(owner), a),
        None => false,
    }
}

/// Whether a requester may see an agent owned by `owner`.
pub fn may_view_agent(is_localhost: bool, authenticated: Option<&str>, authenticated_is_admin: bool, owner: &str,
    is_private: bool) -> (r: bool)
    ensures
        r == spec_may_view_agent(is_localhost, crate::api::opt_seq(authenticated), authenticated_is_admin, owner@, is_private),
{
    if is_localhost || !is_private {
        return true;
    }
    match authenticated {
        Some(a) => authenticated_is_admin || same_address(strip_0x_prefix(owner), a),
        None => false,
    }
}

/// The owner a new agent is registered under: the owner named in the
/// request when it comes from this machine, else the signer; none (status
/// 401) for a remote request without a signature.
pub fn agent_owner_for_create(is_localhost: bool, authenticated: Option<&str>, requested_owner: &str) -> (r: Option<String>)
    ensures
        crate::clock::opt_string_view(r) == (if is_localhost {
            Some(requested_owner@)
        } else {
            crate::api::opt_seq(authenticated)
        }),
{
    if is_localhost {
        Some(crate::text::owned(requested_owner))
    } else {
        match authenticated {
            Some(a) => Some(crate::text::owned(a)),
            None => None,
        }
    }
}

/// Whether a signer may delete an agent owned by `owner`, acting for
/// `effective` (the signer, or the user an administrator acts for): the
/// owner may, and so may an administrator.
pub fn may_delete_agent(owner: &str, effective: &str, signer_is_admin: bool) -> (r: bool)
    ensures
        r == (spec_same_address(owner@, effective@) || signer_is_admin),
{
    same_address(owner, effective) || signer_is_admin
}

} // verus!
