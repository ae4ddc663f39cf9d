//! The account and agent stores as the handlers see them, and the handlers'
//! steps over them: reading, creating, updating and deleting accounts,
//! updating agents, and the checks before an agent runs a task.
//!
//! Each store maps an ID to the latest value written for it. The service
//! replicates these maps between nodes; the replication is done around the
//! library, which sees the current contents.

use vstd::prelude::*;
use crate::accounts::{Account, AuthorizationLevel, spec_level_permits, verify_authorization};
use crate::helpers::account::{
    may_create_account, may_delete_account, may_update_account, spec_may_update, spec_same_address, strip_0x,
};
use crate::helpers::agent::{agent_update_check, spec_agent_update_check, AgentUpdateRefusal};
use crate::helpers::agent_gateway::{run_task_path, spec_run_task_path, spec_task_refusal, task_eligibility};
use crate::helpers::agent_response::ApiError;
use crate::ordered::StrMap;
use crate::text::{concat, owned};

verus! {

/// The accounts, by address.
#[derive(Debug)]
pub struct AccountStore {
    accounts: StrMap<Account>,
}

/// `after` is `before` with `address` set to `account` (removed for `None`).
pub open spec fn accounts_changed(after: AccountStore, before: AccountStore, address: Seq<char>, account: Option<Account>) -> bool {
    &&& after.spec_account(address) == account
    &&& forall|k: Seq<char>| k != address ==> #[trigger] after.spec_account(k) == before.spec_account(k)
}

impl AccountStore {
    /// The account stored at `address`, if any.
    pub closed spec fn spec_account(&self, address: Seq<char>) -> Option<Account> {
        self.accounts.spec_get(address)
    }

    /// The stored addresses, in increasing order.
    pub closed spec fn spec_addresses(&self) -> Seq<Seq<char>> {
        self.accounts.spec_keys()
    }

    /// An empty store.
    pub fn new() -> (r: Self)
        ensures
            forall|k: Seq<char>| #[trigger] r.spec_account(k) is None,
            r.spec_addresses().len() == 0,
    {
        AccountStore { accounts: StrMap::new() }
    }

    /// Get the account stored at `address`.
    pub fn get_account(&self, address: &str) -> (r: Option<&Account>)
        ensures
            match r {
                Some(a) => self.spec_account(address@) == Some(*a),
                None => self.spec_account(address@) is None,
            },
    {
        self.accounts.get(address)
    }

    /// Stores `account` under its address, replacing what was there.
    pub fn update_account_local(&mut self, account: Account)
        ensures
            accounts_changed(*final(self), *old(self), account.address@, Some(account)),
    {
        let key = account.address.clone();
        self.accounts.insert(key, account);
    }

    /// Removes the account stored at `address`, giving it back.
    pub fn remove_account_local(&mut self, address: &str) -> (r: Option<Account>)
        ensures
            r == old(self).spec_account(address@),
            accounts_changed(*final(self), *old(self), address@, None),
    {
        self.accounts.remove(address)
    }

    /// Get all accounts, in increasing order of address.
    pub fn list_accounts(&self) -> (r: Vec<&Account>)
        ensures
            r@.len() == self.spec_addresses().len(),
            forall|i: int| 0 <= i < r@.len() ==> self.spec_account(#[trigger] self.spec_addresses()[i]) == Some(*r@[i]),
    {
        self.accounts.lemma_sorted();
        let entries = self.accounts.entries();
        let mut out: Vec<&Account> = Vec::new();
        let mut i: usize = 0;
        while i < entries.len()
            invariant
                i <= entries@.len(),
                entries@ == self.accounts.spec_entries(),
                out@.len() == i,
                forall|j: int| 0 <= j < i ==> self.spec_account(#[trigger] self.spec_addresses()[j]) == Some(*out@[j]),
                forall|j: int| 0 <= j < entries@.len() ==> self.accounts.spec_get(#[trigger] self.accounts.spec_keys()[j])
                    == Some(self.accounts.spec_entries()[j].1),
            decreases entries@.len() - i,
        {
            out.push(&entries[i].1);
            i += 1;
        }
        out
    }

    /// Get the accounts that own the instance `instance_id`, in increasing
    /// order of address.
    pub fn get_owners_of_instance(&self, instance_id: &str) -> (r: Vec<&Account>)
        ensures
            forall|i: int| 0 <= i < r@.len() ==> r@[i].owned_instances.spec_set().contains(instance_id@)
                && exists|j: int| 0 <= j < self.spec_addresses().len()
                    && #[trigger] self.spec_account(self.spec_addresses()[j]) == Some(*r@[i]),
            forall|j: int| 0 <= j < self.spec_addresses().len()
                && (#[trigger] self.spec_account(self.spec_addresses()[j])).unwrap().owned_instances.spec_set().contains(instance_id@)
                ==> exists|i: int| 0 <= i < r@.len() && Some(*r@[i]) == self.spec_account(self.spec_addresses()[j]),
    {
        self.accounts.lemma_sorted();
        let entries = self.accounts.entries();
        let mut out: Vec<&Account> = Vec::new();
        let mut i: usize = 0;
        while i < entries.len()
            invariant
                i <= entries@.len(),
                entries@ == self.accounts.spec_entries(),
                forall|j: int| 0 <= j < entries@.len() ==> self.accounts.spec_get(#[trigger] self.accounts.spec_keys()[j])
                    == Some(self.accounts.spec_entries()[j].1),
                forall|m: int| 0 <= m < out@.len() ==> out@[m].owned_instances.spec_set().contains(instance_id@)
                    && exists|j: int| 0 <= j < self.spec_addresses().len()
                        && #[trigger] self.spec_account(self.spec_addresses()[j]) == Some(*out@[m]),
                forall|j: int| 0 <= j < i
                    && (#[trigger] self.spec_account(self.spec_addresses()[j])).unwrap().owned_instances.spec_set().contains(instance_id@)
                    ==> exists|m: int| 0 <= m < out@.len() && Some(*out@[m]) == self.spec_account(self.spec_addresses()[j]),
            decreases entries@.len() - i,
        {
            if entries[i].1.owned_instances.contains(instance_id) {
                let ghost before = out@;
                out.push(&entries[i].1);
                proof {
                    assert(self.spec_account(self.spec_addresses()[i as int]) == Some(*out@[before.len() as int]));
                    assert forall|j: int| 0 <= j < i + 1
                        && (#[trigger] self.spec_account(self.spec_addresses()[j])).unwrap().owned_instances.spec_set().contains(instance_id@)
                        implies exists|m: int| 0 <= m < out@.len() && Some(*out@[m]) == self.spec_account(self.spec_addresses()[j]) by {
                        if j < i {
                            let m = choose|m: int| 0 <= m < before.len() && Some(*before[m]) == self.spec_account(self.spec_addresses()[j]);
                            assert(out@[m] == before[m]);
                        } else {
                            assert(Some(*out@[before.len() as int]) == self.spec_account(self.spec_addresses()[j]));
                        }
                    }
                }
            } else {
                proof {
                    assert(self.spec_account(self.spec_addresses()[i as int]) == Some(entries@[i as int].1));
                }
            }
            i += 1;
        }
        out
    }

    /// Whether the account at `address` may perform an operation that needs
    /// `required_level` on an instance.
    pub fn verify_authorization(&self, address: &str, instance_id: &str, required_level: AuthorizationLevel) -> (r: bool)
        ensures
            r == match self.spec_account(address@) {
                Some(a) => match a.spec_authorization_level(instance_id@) {
                    Some(l) => spec_level_permits(l, required_level),
                    None => false,
                },
                None => false,
            },
    {
        verify_authorization(self.get_account(address), instance_id, required_level)
    }
}

/// The refusal of an account update by the signer `authenticated` (none
/// for an unsigned request), if any: 403 unless the request may change
/// that account, then 404 unless it exists.
pub open spec fn spec_update_refusal(store: AccountStore, authenticated: Option<Seq<char>>, is_localhost: bool,
    address: Seq<char>) -> Option<u16>
{
    if !spec_may_update(authenticated, is_localhost, address) {
        Some(403u16)
    } else if store.spec_account(address) is None {
        Some(404u16)
    } else {
        None
    }
}

/// Updates the stored account with `account`: refused with 403 ("You can
/// only update your own account") unless the request may change it, with
/// 404 unless an account is stored at its address; then stored.
pub fn update_account_request(store: &mut AccountStore, authenticated: Option<&str>, is_localhost: bool, account: Account)
    -> (r: Result<(), (u16, String)>)
    ensures
        match (r, spec_update_refusal(*old(store), crate::api::opt_seq(authenticated), is_localhost, account.address@)) {
            (Ok(()), None) => accounts_changed(*final(store), *old(store), account.address@, Some(account)),
            (Err((s, m)), Some(t)) => s == t && *final(store) == *old(store) && m@ == (if t == 403 {
                "You can only update your own account"@
            } else {
                "Account with address "@ + account.address@ + " does not exist"@
            }),
            _ => false,
        },
{
    if !may_update_account(authenticated, is_localhost, account.address.as_str()) {
        return Err((403, owned("You can only update your own account")));
    }
    if store.get_account(account.address.as_str()).is_none() {
        let a = concat("Account with address ", account.address.as_str());
        return Err((404, concat(a.as_str(), " does not exist")));
    }
    store.update_account_local(account);
    Ok(())
}

/// The refusal of an account creation by the signer `authenticated`, if
/// any: 403 unless the address is the signer's own, then 409 if an account
/// is already stored there.
pub open spec fn spec_create_refusal(store: AccountStore, authenticated: Seq<char>, address: Seq<char>) -> Option<u16> {
    if !spec_same_address(authenticated, strip_0x(address)) {
        Some(403u16)
    } else if store.spec_account(address) is Some {
        Some(409u16)
    } else {
        None
    }
}

/// Creates `account`: refused with 403 ("You can only create an account
/// with your own authenticated address") unless its address is the
/// signer's, with 409 when an account is already stored there (which stays
/// as it was); then stored.
pub fn create_account_request(store: &mut AccountStore, authenticated: &str, account: Account) -> (r: Result<(), (u16, String)>)
    ensures
        match (r, spec_create_refusal(*old(store), authenticated@, account.address@)) {
            (Ok(()), None) => accounts_changed(*final(store), *old(store), account.address@, Some(account)),
            (Err((s, m)), Some(t)) => s == t && *final(store) == *old(store) && m@ == (if t == 403 {
                "You can only create an account with your own authenticated address"@
            } else {
                "Account with address "@ + account.address@ + " already exists"@
            }),
            _ => false,
        },
{
    if !may_create_account(authenticated, account.address.as_str()) {
        return Err((403, owned("You can only create an account with your own authenticated address")));
    }
    if store.get_account(account.address.as_str()).is_some() {
        let a = concat("Account with address ", account.address.as_str());
        return Err((409, concat(a.as_str(), " already exists")));
    }
    store.update_account_local(account);
    Ok(())
}

/// Deletes the account at `address`: refused with 403 ("You can only
/// delete your own account") unless it is the signer's, with 404 unless an
/// account is stored there; then removed.
pub fn delete_account_request(store: &mut AccountStore, authenticated: &str, address: &str) -> (r: Result<(), (u16, String)>)
    ensures
        !spec_same_address(authenticated@, address@) ==> (r matches Err((s, m)) && s == 403
            && m@ == "You can only delete your own account"@ && *final(store) == *old(store)),
        spec_same_address(authenticated@, address@) && old(store).spec_account(address@) is None ==> (r matches Err((s, m))
            && s == 404 && m@ == "Account with address "@ + address@ + " does not exist"@ && *final(store) == *old(store)),
        spec_same_address(authenticated@, address@) && old(store).spec_account(address@) is Some ==> r is Ok
            && accounts_changed(*final(store), *old(store), address@, None),
{
    if !may_delete_account(authenticated, address) {
        return Err((403, owned("You can only delete your own account")));
    }
    if store.get_account(address).is_none() {
        let a = concat("Account with address ", address);
        return Err((404, concat(a.as_str(), " does not exist")));
    }
    let _ = store.remove_account_local(address);
    Ok(())
}

/// A stored agent: who owns it, whether it is private, and the rest of its
/// description.
#[derive(Debug)]
pub struct StoredAgent<A> {
    pub agent_id: String,
    pub owner_id: String,
    pub is_private: bool,
    pub details: A,
}

/// The agents, by agent ID.
#[derive(Debug)]
pub struct AgentStore<A> {
    agents: StrMap<StoredAgent<A>>,
}

impl<A> AgentStore<A> {
    /// The agent stored under `agent_id`, if any.
    pub closed spec fn spec_agent(&self, agent_id: Seq<char>) -> Option<StoredAgent<A>> {
        self.agents.spec_get(agent_id)
    }

    /// An empty store.
    pub fn new() -> (r: Self)
        ensures
            forall|k: Seq<char>| #[trigger] r.spec_agent(k) is None,
    {
        AgentStore { agents: StrMap::new() }
    }

    /// Get the agent stored under `agent_id`.
    pub fn get_agent(&self, agent_id: &str) -> (r: Option<&StoredAgent<A>>)
        ensures
            match r {
                Some(a) => self.spec_agent(agent_id@) == Some(*a),
                None => self.spec_agent(agent_id@) is None,
            },
    {
        self.agents.get(agent_id)
    }

    /// Stores `agent` under its ID, replacing what was there.
    pub fn update_agent_local(&mut self, agent: StoredAgent<A>)
        ensures
            final(self).spec_agent(agent.agent_id@) == Some(agent),
            forall|k: Seq<char>| k != agent.agent_id@ ==> #[trigger] final(self).spec_agent(k) == old(self).spec_agent(k),
    {
        let key = agent.agent_id.clone();
        self.agents.insert(key, agent);
    }

    /// Removes the agent stored under `agent_id`, giving it back.
    pub fn remove_agent_local(&mut self, agent_id: &str) -> (r: Option<StoredAgent<A>>)
        ensures
            r == old(self).spec_agent(agent_id@),
            final(self).spec_agent(agent_id@) is None,
            forall|k: Seq<char>| k != agent_id@ ==> #[trigger] final(self).spec_agent(k) == old(self).spec_agent(k),
    {
        self.agents.remove(agent_id)
    }
}

/// Why an agent update was refused.
#[derive(Debug, Clone, Copy, PartialEq, Eq, Structural)]
pub enum AgentUpdateError {
    /// No agent is stored under the ID (404)
    NotFound,
    /// The requester may not make this update (403)
    Refused(AgentUpdateRefusal),
}

/// Updates the stored agent with `agent`: refused with NotFound when no
/// agent is stored under its ID, then as `agent_update_check` decides for
/// the stored owner; then stored.
pub fn update_agent_request<A>(store: &mut AgentStore<A>, agent: StoredAgent<A>, is_localhost: bool,
    authenticated: Option<&str>, authenticated_is_admin: bool) -> (r: Result<(), AgentUpdateError>)
    ensures
        match old(store).spec_agent(agent.agent_id@) {
            None => r == Err::<(), AgentUpdateError>(AgentUpdateError::NotFound) && *final(store) == *old(store),
            Some(ex) => match spec_agent_update_check(is_localhost, crate::api::opt_seq(authenticated), authenticated_is_admin,
                ex.owner_id@, agent.owner_id@) {
                Some(refusal) => r == Err::<(), AgentUpdateError>(AgentUpdateError::Refused(refusal)) && *final(store) == *old(store),
                None => r is Ok && final(store).spec_agent(agent.agent_id@) == Some(agent)
                    && forall|k: Seq<char>| k != agent.agent_id@ ==> #[trigger] final(store).spec_agent(k) == old(store).spec_agent(k),
            },
        },
{
    let check = match store.get_agent(agent.agent_id.as_str()) {
        None => {
            return Err(AgentUpdateError::NotFound);
        },
        Some(ex) => agent_update_check(is_localhost, authenticated, authenticated_is_admin, ex.owner_id.as_str(),
            agent.owner_id.as_str()),
    };
    match check {
        Some(refusal) => Err(AgentUpdateError::Refused(refusal)),
        None => {
            store.update_agent_local(agent);
            Ok(())
        },
    }
}

/// The refusal (code, HTTP status) of a task run of `agent_id` by `caller`,
/// if any: ACCOUNT_NOT_FOUND (403) without an account, then AGENT_NOT_FOUND
/// (404) without the agent, then NOT_ELIGIBLE (402) as `task_eligibility`
/// decides.
pub open spec fn spec_task_precheck<A>(accounts: AccountStore, agents: AgentStore<A>, caller: Seq<char>, agent_id: Seq<char>)
    -> Option<(Seq<char>, u16, Seq<char>)>
{
    match accounts.spec_account(caller) {
        None => Some(("ACCOUNT_NOT_FOUND"@, 403u16, "Account not found. Please ensure your account is provisioned."@)),
        Some(acct) => match agents.spec_agent(agent_id) {
            None => Some(("AGENT_NOT_FOUND"@, 404u16, "Agent '"@ + agent_id + "' not found."@)),
            Some(ag) => match spec_task_refusal(acct, ag.is_private, ag.owner_id@, caller, agent_id) {
                Some(reason) => Some(("NOT_ELIGIBLE"@, 402u16, reason)),
                None => None,
            },
        },
    }
}

/// The checks before a task of `agent_id` runs for `caller`, in order:
/// the caller's account, then the agent, then eligibility. A refusal is the
/// agent API's error for the task's path.
pub fn task_precheck<A>(accounts: &AccountStore, agents: &AgentStore<A>, caller: &str, agent_id: &str) -> (r: Result<(), ApiError>)
    ensures
        match (r, spec_task_precheck(*accounts, *agents, caller@, agent_id@)) {
            (Ok(()), None) => true,
            (Err(e), Some((code, status, message))) => e.code@ == code && e.status_code == status
                && e.message@ == message && e.path@ == spec_run_task_path(agent_id@),
            _ => false,
        },
{
    let path = run_task_path(agent_id);
    let account = match accounts.get_account(caller) {
        Some(a) => a,
        None => {
            return Err(ApiError::new("ACCOUNT_NOT_FOUND", "Account not found. Please ensure your account is provisioned.", 403)
                .with_path(path.as_str()));
        },
    };
    let agent = match agents.get_agent(agent_id) {
        Some(a) => a,
        None => {
            let m1 = concat("Agent '", agent_id);
            let m = concat(m1.as_str(), "' not found.");
            return Err(ApiError::new("AGENT_NOT_FOUND", m.as_str(), 404).with_path(path.as_str()));
        },
    };
    match task_eligibility(account, agent.is_private, agent.owner_id.as_str(), caller, agent_id) {
        Some(reason) => Err(ApiError::new("NOT_ELIGIBLE", reason.as_str(), 402).with_path(path.as_str())),
        None => Ok(()),
    }
}

} // verus!
