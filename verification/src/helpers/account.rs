//! Who may create, change, delete an account or hand over an instance, and
//! the hand-over itself.

use vstd::prelude::*;
use crate::accounts::{Account, AuthorizationLevel, spec_level_permits, verify_authorization};
use crate::text::{concat, owned, seq_starts_with, starts_with, str_eq, suffix_from, to_lowercase, unicode_lowercase};

verus! {

/// `s` without a leading `0x`.
pub open spec fn strip_0x(s: Seq<char>) -> Seq<char> {
    if seq_starts_with(s, "0x"@) { s.subrange(2, s.len() as int) } else { s }
}

/// `s` without a leading `0x`.
pub fn strip_0x_prefix(s: &str) -> (r: &str)
    ensures
        r@ == strip_0x(s@),
{
    if starts_with(s, "0x") {
        proof {
            reveal_strlit("0x");
        }
        suffix_from(s, 2)
    } else {
        s
    }
}

/// Two addresses are the same when their lower-case forms are.
pub open spec fn spec_same_address(a: Seq<char>, b: Seq<char>) -> bool {
    unicode_lowercase(a) == unicode_lowercase(b)
}

/// Whether two addresses are the same, ignoring case.
pub fn same_address(a: &str, b: &str) -> (r: bool)
    ensures
        r == spec_same_address(a@, b@),
{
    let la = to_lowercase(a);
    let lb = to_lowercase(b);
    str_eq(la.as_str(), lb.as_str())
}

/// An account may be created only under the authenticated address (the
/// requested one may carry a `0x` prefix).
pub fn may_create_account(authenticated: &str, requested: &str) -> (r: bool)
    ensures
        r == spec_same_address(authenticated@, strip_0x(requested@)),
{
    same_address(authenticated, strip_0x_prefix(requested))
}

/// Whether a request may change the account `account_address`: one from
/// this machine without a signature may; a signed one only for its own
/// address.
pub open spec fn spec_may_update(authenticated: Option<Seq<char>>, is_localhost: bool, account_address: Seq<char>) -> bool {
    match authenticated {
        None => is_localhost,
        Some(a) => spec_same_address(a, account_address),
    }
}

/// Whether a request may change the account `account_address`.
pub fn may_update_account(authenticated: Option<&str>, is_localhost: bool, account_address: &str) -> (r: bool)
    ensures
        r == spec_may_update(crate::api::opt_seq(authenticated), is_localhost, account_address@),
{
    match authenticated {
        None => is_localhost,
        Some(a) => same_address(a, account_address),
    }
}

/// Whether the signer `authenticated` may delete the account `account_address`:
/// only its own.
pub fn may_delete_account(authenticated: &str, account_address: &str) -> (r: bool)
    ensures
        r == spec_same_address(authenticated@, account_address@),
{
    same_address(authenticated, account_address)
}

/// Why an instance hand-over was refused.
#[derive(Debug, Clone)]
pub enum TransferRefusal {
    /// The signer is not the source account
    NotYourInstance,
    /// The source account does not exist
    SourceMissing(String),
    /// The destination account does not exist
    DestinationMissing(String),
    /// The instance does not exist
    InstanceMissing(String),
    /// The source account does not own the instance
    NotOwnedBySource(String),
    /// The source account lacks Owner authorization for the instance
    SourceNotOwner(String),
}

/// The HTTP status and message of a refused hand-over.
pub open spec fn spec_transfer_refusal(r: TransferRefusal) -> (u16, Seq<char>) {
    match r {
        TransferRefusal::NotYourInstance => (403, "You can only transfer ownership of instances that you own"@),
        TransferRefusal::SourceMissing(a) => (404, "Source account with address "@ + a@ + " does not exist"@),
        TransferRefusal::DestinationMissing(a) => (404, "Destination account with address "@ + a@ + " does not exist"@),
        TransferRefusal::InstanceMissing(i) => (404, "Instance with ID "@ + i@ + " does not exist"@),
        TransferRefusal::NotOwnedBySource(i) => (403, "Source account does not own the instance "@ + i@),
        TransferRefusal::SourceNotOwner(i) => (403, "Source account does not have Owner authorization for instance "@ + i@),
    }
}

/// The message that the thing `what` (its kind and ID) does not exist.
fn missing_message(what: &str, id: &str) -> (r: String)
    ensures
        r@ == what@ + id@ + " does not exist"@,
{
    let m = concat(what, id);
    concat(m.as_str(), " does not exist")
}

impl TransferRefusal {
    /// The HTTP status and message of the refusal.
    pub fn response(&self) -> (r: (u16, String))
        ensures
            (r.0, r.1@) == spec_transfer_refusal(*self),
    {
        match self {
            TransferRefusal::NotYourInstance => (403, owned("You can only transfer ownership of instances that you own")),
            TransferRefusal::SourceMissing(a) => (404, missing_message("Source account with address ", a.as_str())),
            TransferRefusal::DestinationMissing(a) => (404, missing_message("Destination account with address ", a.as_str())),
            TransferRefusal::InstanceMissing(i) => (404, missing_message("Instance with ID ", i.as_str())),
            TransferRefusal::NotOwnedBySource(i) => (403, concat("Source account does not own the instance ", i.as_str())),
            TransferRefusal::SourceNotOwner(i) =>
                (403, concat("Source account does not have Owner authorization for instance ", i.as_str())),
        }
    }
}

/// Some account of `owners` has the address `address`.
pub open spec fn has_owner(owners: Seq<Account>, address: Seq<char>) -> bool {
    exists|i: int| 0 <= i < owners.len() && #[trigger] owners[i].address@ == address
}

/// The decision on a hand-over of `instance_id` from `from` to `to`, asked
/// by the signer `authenticated`: the signer must be the source; both
/// accounts and the instance must exist; the source must be among the
/// instance's owners and hold Owner authorization for it.
pub open spec fn spec_transfer_check(authenticated: Seq<char>, from: Seq<char>, to: Seq<char>, instance_id: Seq<char>,
    from_account: Option<Account>, to_exists: bool, instance_exists: bool, owners: Seq<Account>) -> Option<TransferRefusal>
{
    if !spec_same_address(authenticated, from) {
        Some(TransferRefusal::NotYourInstance)
    } else if from_account is None {
        Some(TransferRefusal::SourceMissing(arbitrary()))
    } else if !to_exists {
        Some(TransferRefusal::DestinationMissing(arbitrary()))
    } else if !instance_exists {
        Some(TransferRefusal::InstanceMissing(arbitrary()))
    } else if !has_owner(owners, from) {
        Some(TransferRefusal::NotOwnedBySource(arbitrary()))
    } else if !(match from_account.unwrap().spec_authorization_level(instance_id) {
        Some(l) => spec_level_permits(l, AuthorizationLevel::Owner),
        None => false,
    }) {
        Some(TransferRefusal::SourceNotOwner(arbitrary()))
    } else {
        None
    }
}

/// The refusal `r` is of the same kind as `s` and names what it is about.
pub open spec fn refusal_names(r: TransferRefusal, s: TransferRefusal, from: Seq<char>, to: Seq<char>, instance_id: Seq<char>) -> bool {
    match (r, s) {
        (TransferRefusal::NotYourInstance, TransferRefusal::NotYourInstance) => true,
        (TransferRefusal::SourceMissing(a), TransferRefusal::SourceMissing(_)) => a@ == from,
        (TransferRefusal::DestinationMissing(a), TransferRefusal::DestinationMissing(_)) => a@ == to,
        (TransferRefusal::InstanceMissing(i), TransferRefusal::InstanceMissing(_)) => i@ == instance_id,
        (TransferRefusal::NotOwnedBySource(i), TransferRefusal::NotOwnedBySource(_)) => i@ == instance_id,
        (TransferRefusal::SourceNotOwner(i), TransferRefusal::SourceNotOwner(_)) => i@ == instance_id,
        _ => false,
    }
}

/// Checks a hand-over of `instance_id` from `from` to `to`, asked by the
/// signer `authenticated`, given the source account (if it exists), whether
/// the destination account and the instance exist, and the accounts that
/// own the instance.
pub fn transfer_check(
    authenticated: &str,
    from: &str,
    to: &str,
    instance_id: &str,
    from_account: Option<&Account>,
    to_exists: bool,
    instance_exists: bool,
    owners: &Vec<Account>,
) -> (r: Option<TransferRefusal>)
    ensures
        match (r, spec_transfer_check(authenticated@, from@, to@, instance_id@,
            match from_account { Some(a) => Some(*a), None => None }, to_exists, instance_exists, owners@)) {
            (None, None) => true,
            (Some(x), Some(y)) => refusal_names(x, y, from@, to@, instance_id@),
            _ => false,
        },
{
    if !same_address(authenticated, from) {
        return Some(TransferRefusal::NotYourInstance);
    }
    let source = match from_account {
        Some(a) => a,
        None => {
            return Some(TransferRefusal::SourceMissing(owned(from)));
        },
    };
    if !to_exists {
        return Some(TransferRefusal::DestinationMissing(owned(to)));
    }
    if !instance_exists {
        return Some(TransferRefusal::InstanceMissing(owned(instance_id)));
    }
    let mut owned_by_source = false;
    let mut i: usize = 0;
    while i < owners.len()
        invariant
            i <= owners@.len(),
            owned_by_source == exists|j: int| 0 <= j < i && #[trigger] owners@[j].address@ == from@,
        decreases owners@.len() - i,
    {
        if str_eq(owners[i].address.as_str(), from) {
            owned_by_source = true;
        }
        i += 1;
    }
    if !owned_by_source {
        return Some(TransferRefusal::NotOwnedBySource(owned(instance_id)));
    }
    if !verify_authorization(Some(source), instance_id, AuthorizationLevel::Owner) {
        return Some(TransferRefusal::SourceNotOwner(owned(instance_id)));
    }
    None
}

/// Hands `instance_id` over from `from` to `to`: the source no longer owns
/// it, the destination does.
pub fn transfer_instance(from: &mut Account, to: &mut Account, instance_id: &str)
    ensures
        !final(from).owned_instances.spec_set().contains(instance_id@),
        final(from).owned_instances.spec_set() == old(from).owned_instances.spec_set().remove(instance_id@),
        final(to).owned_instances.spec_set() == old(to).owned_instances.spec_set().insert(instance_id@),
        final(from).same_except(*old(from), true, false, false, false, false, false, false),
        final(to).same_except(*old(to), true, false, false, false, false, false, false),
{
    from.remove_owned_instance(instance_id);
    to.add_owned_instance(owned(instance_id));
}

/// After a hand-over, the destination holds Owner authorization for the
/// instance and the source holds whatever was granted to it apart from
/// ownership.
pub proof fn lemma_transfer_moves_ownership(from: Account, to: Account, from2: Account, to2: Account, instance_id: Seq<char>)
    requires
        from2.owned_instances.spec_set() == from.owned_instances.spec_set().remove(instance_id),
        to2.owned_instances.spec_set() == to.owned_instances.spec_set().insert(instance_id),
        from2.same_except(from, true, false, false, false, false, false, false),
    ensures
        to2.spec_authorization_level(instance_id) == Some(AuthorizationLevel::Owner),
        from2.spec_authorization_level(instance_id) == from.authorized_instances.spec_get(instance_id),
{
}

/// Which accounts a request may list.
#[derive(Debug, Clone, PartialEq, Eq)]
pub enum AccountListScope {
    /// Every account (a request from this machine, or an administrator)
    All,
    /// Only the signer's own account
    Own(String),
    /// None: the request is refused (status 403)
    Forbidden,
}

/// Decides which accounts a request may list: a request from this machine
/// or an administrator's may list all; another signed one only the
/// signer's own; an unsigned remote one none.
pub fn account_list_scope(is_localhost: bool, authenticated: Option<&str>, authenticated_is_admin: bool) -> (r: AccountListScope)
    ensures
        is_localhost ==> r == AccountListScope::All,
        !is_localhost ==> match authenticated {
            Some(a) => if authenticated_is_admin {
                r == AccountListScope::All
            } else {
                r matches AccountListScope::Own(own) && own@ == a@
            },
            None => r == AccountListScope::Forbidden,
        },
{
    if is_localhost {
        return AccountListScope::All;
    }
    match authenticated {
        Some(a) => if authenticated_is_admin {
            AccountListScope::All
        } else {
            AccountListScope::Own(owned(a))
        },
        None => AccountListScope::Forbidden,
    }
}

/// The refusal (status and message) of a request to read the account
/// `requested`, if any: a remote request needs a signature, and a signed
/// remote request may read only the signer's own account (the requested
/// address may carry a `0x` prefix).
pub open spec fn spec_account_read_refusal(authenticated: Option<Seq<char>>, is_localhost: bool, requested: Seq<char>) -> Option<(u16, Seq<char>)> {
    match authenticated {
        None => if is_localhost { None } else { Some((401u16, "Missing signature for non-localhost call"@)) },
        Some(a) => if !spec_same_address(a, strip_0x(requested)) && !is_localhost {
            Some((403u16, "You can only access your own account"@))
        } else {
            None
        },
    }
}

/// Checks a request to read the account `requested`.
pub fn account_read_check(authenticated: Option<&str>, is_localhost: bool, requested: &str) -> (r: Option<(u16, &'static str)>)
    ensures
        match (r, spec_account_read_refusal(crate::api::opt_seq(authenticated), is_localhost, requested@)) {
            (None, None) => true,
            (Some((s, m)), Some((t, n))) => s == t && m@ == n,
            _ => false,
        },
{
    match authenticated {
        None => if is_localhost { None } else { Some((401, "Missing signature for non-localhost call")) },
        Some(a) => if !same_address(a, strip_0x_prefix(requested)) && !is_localhost {
            Some((403, "You can only access your own account"))
        } else {
            None
        },
    }
}

} // verus!
