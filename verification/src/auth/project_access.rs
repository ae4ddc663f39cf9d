//! Which projects may use which marketplace resources (agents and models),
//! and at what level.

use vstd::prelude::*;
use crate::kv::StringMap;
use crate::text::{concat, owned, str_eq};

verus! {

/// The type of a marketplace resource.
#[derive(Debug, Clone, Copy, PartialEq, Eq, Structural)]
pub enum ResourceType {
    /// AI Agent resource
    Agent,
    /// AI Model resource
    Model,
}

/// The level of access a project has to a resource.
#[derive(Debug, Clone, Copy, PartialEq, Eq, Structural)]
pub enum AccessLevel {
    /// Read-only access
    ReadOnly,
    /// Full access including deployment and modification
    FullAccess,
    /// Owner-level access (can grant access to others)
    Owner,
}

/// How much an access level allows: Owner above FullAccess above ReadOnly.
pub open spec fn level_rank(l: AccessLevel) -> nat {
    match l {
        AccessLevel::ReadOnly => 0,
        AccessLevel::FullAccess => 1,
        AccessLevel::Owner => 2,
    }
}

/// A grant at level `held` allows what `minimum` needs.
pub open spec fn level_covers(held: AccessLevel, minimum: AccessLevel) -> bool {
    level_rank(held) >= level_rank(minimum)
}

/// Whether a grant at level `held` allows what `minimum` needs.
pub fn access_level_covers(held: AccessLevel, minimum: AccessLevel) -> (r: bool)
    ensures
        r == level_covers(held, minimum),
{
    match (held, minimum) {
        (AccessLevel::Owner, _) => true,
        (AccessLevel::FullAccess, AccessLevel::ReadOnly) => true,
        (AccessLevel::FullAccess, AccessLevel::FullAccess) => true,
        (AccessLevel::ReadOnly, AccessLevel::ReadOnly) => true,
        _ => false,
    }
}

/// An access grant between a project and a marketplace resource.
#[derive(Debug, Clone)]
pub struct ProjectResourceAccess {
    /// ID of the project granted access
    pub project_id: String,
    /// ID of the resource (agent_id or model_id)
    pub resource_id: String,
    /// Type of resource (Agent or Model)
    pub resource_type: ResourceType,
    /// Level of access granted
    pub access_level: AccessLevel,
    /// User ID who granted this access
    pub granted_by: String,
    /// Timestamp when access was granted (seconds since the Unix epoch)
    pub granted_at: i64,
    /// Optional expiration time for temporary access (seconds since the Unix epoch)
    pub expires_at: Option<i64>,
    /// Optional metadata associated with this access grant
    pub metadata: StringMap,
}

/// The seconds since the Unix epoch by the system clock, as a signed count.
pub fn now_unix_secs() -> (r: i64) {
    crate::clock::unix_time_secs() as i64
}

impl ProjectResourceAccess {
    /// The grant is in force at time `now`.
    pub open spec fn spec_valid_at(&self, now: i64) -> bool {
        match self.expires_at {
            Some(e) => now < e,
            None => true,
        }
    }

    /// Create a new access grant, stamped with the current time, without
    /// expiry or metadata.
    pub fn new(
        project_id: String,
        resource_id: String,
        resource_type: ResourceType,
        access_level: AccessLevel,
        granted_by: String,
    ) -> (r: Self)
        ensures
            r.project_id == project_id,
            r.resource_id == resource_id,
            r.resource_type == resource_type,
            r.access_level == access_level,
            r.granted_by == granted_by,
            r.expires_at is None,
            r.metadata@ == Map::<Seq<char>, Seq<char>>::empty(),
    {
        let now = now_unix_secs();
        ProjectResourceAccess {
            project_id,
            resource_id,
            resource_type,
            access_level,
            granted_by,
            granted_at: now,
            expires_at: None,
            metadata: StringMap::new(),
        }
    }

    /// Whether the grant is in force at time `now`.
    pub fn is_valid_at(&self, now: i64) -> (r: bool)
        ensures
            r == self.spec_valid_at(now),
    {
        match self.expires_at {
            Some(e) => now < e,
            None => true,
        }
    }

    /// Whether the grant is in force now: a grant without expiry always is.
    pub fn is_valid(&self) -> (r: bool)
        ensures
            exists|now: i64| r == self.spec_valid_at(now),
            self.expires_at is None ==> r,
    {
        let now = now_unix_secs();
        self.is_valid_at(now)
    }

    /// Set an expiration time for this access grant.
    pub fn with_expiration(self, expires_at: i64) -> (r: Self)
        ensures
            r == (ProjectResourceAccess { expires_at: Some(expires_at), ..self }),
    {
        let mut s = self;
        s.expires_at = Some(expires_at);
        s
    }

    /// Add metadata to this access grant.
    pub fn with_metadata(self, key: &str, value: &str) -> (r: Self)
        ensures
            r.metadata@ == self.metadata@.insert(key@, value@),
            r.project_id == self.project_id,
            r.resource_id == self.resource_id,
            r.resource_type == self.resource_type,
            r.access_level == self.access_level,
            r.granted_by == self.granted_by,
            r.granted_at == self.granted_at,
            r.expires_at == self.expires_at,
    {
        let mut s = self;
        s.metadata.insert(owned(key), owned(value));
        s
    }
}

/// `c` holds the same grant as `r`.
pub open spec fn same_grant(c: ProjectResourceAccess, r: ProjectResourceAccess) -> bool {
    &&& c.project_id == r.project_id
    &&& c.resource_id == r.resource_id
    &&& c.resource_type == r.resource_type
    &&& c.access_level == r.access_level
    &&& c.granted_by == r.granted_by
    &&& c.granted_at == r.granted_at
    &&& c.expires_at == r.expires_at
    &&& c.metadata@ == r.metadata@
}

impl ProjectResourceAccess {
    /// A copy of this grant.
    pub fn copy(&self) -> (r: Self)
        ensures
            same_grant(r, *self),
    {
        ProjectResourceAccess {
            project_id: self.project_id.clone(),
            resource_id: self.resource_id.clone(),
            resource_type: self.resource_type,
            access_level: self.access_level,
            granted_by: self.granted_by.clone(),
            granted_at: self.granted_at,
            expires_at: self.expires_at,
            metadata: self.metadata.copy(),
        }
    }
}

/// The record `r` is for the project, resource type and resource given.
pub open spec fn record_matches(r: ProjectResourceAccess, project_id: Seq<char>, t: ResourceType, resource_id: Seq<char>) -> bool {
    r.project_id@ == project_id && r.resource_type == t && r.resource_id@ == resource_id
}

/// No two of the grants `s` are for the same project, resource type and
/// resource.
pub open spec fn unique_grants(s: Seq<ProjectResourceAccess>) -> bool {
    forall|i: int, j: int| 0 <= i < j < s.len() ==>
        !record_matches(#[trigger] s[i], s[j].project_id@, #[trigger] s[j].resource_type, s[j].resource_id@)
}

/// In-memory store of project resource access records.
#[derive(Debug)]
pub struct ProjectAccessStore {
    records: Vec<ProjectResourceAccess>,
}

impl ProjectAccessStore {
    /// The grants, in the order they were made.
    pub closed spec fn spec_records(&self) -> Seq<ProjectResourceAccess> {
        self.records@
    }

    /// At most one grant per project, resource type and resource: every
    /// store keeps this.
    #[verifier::type_invariant]
    pub closed spec fn wf(&self) -> bool {
        unique_grants(self.records@)
    }

    /// The grant for a project, resource type and resource, if any.
    pub open spec fn spec_grant(&self, project_id: Seq<char>, t: ResourceType, resource_id: Seq<char>) -> Option<ProjectResourceAccess> {
        if exists|i: int| 0 <= i < self.spec_records().len()
            && record_matches(#[trigger] self.spec_records()[i], project_id, t, resource_id) {
            Some(self.spec_records()[choose|i: int| 0 <= i < self.spec_records().len()
                && record_matches(#[trigger] self.spec_records()[i], project_id, t, resource_id)])
        } else {
            None
        }
    }

    /// The project has, at time `now`, a grant in force that covers `minimum`.
    pub open spec fn spec_has_access_at(&self, project_id: Seq<char>, t: ResourceType, resource_id: Seq<char>,
        minimum: AccessLevel, now: i64) -> bool {
        match self.spec_grant(project_id, t, resource_id) {
            Some(g) => g.spec_valid_at(now) && level_covers(g.access_level, minimum),
            None => false,
        }
    }

    /// The level of the grant in force at time `now`, if any.
    pub open spec fn spec_access_level_at(&self, project_id: Seq<char>, t: ResourceType, resource_id: Seq<char>,
        now: i64) -> Option<AccessLevel> {
        match self.spec_grant(project_id, t, resource_id) {
            Some(g) => if g.spec_valid_at(now) { Some(g.access_level) } else { None },
            None => None,
        }
    }

    /// Create a new empty store.
    pub fn new() -> (r: Self)
        ensures
            r.spec_records().len() == 0,
    {
        ProjectAccessStore { records: Vec::new() }
    }

    /// The position of the grant for a project, resource type and resource.
    fn find(&self, project_id: &str, t: ResourceType, resource_id: &str) -> (r: Option<usize>)
        ensures
            match r {
                Some(i) => i < self.spec_records().len()
                    && record_matches(self.spec_records()[i as int], project_id@, t, resource_id@),
                None => forall|i: int| 0 <= i < self.spec_records().len()
                    ==> !record_matches(#[trigger] self.spec_records()[i], project_id@, t, resource_id@),
            },
    {
        let mut i: usize = 0;
        while i < self.records.len()
            invariant
                i <= self.records@.len(),
                forall|k: int| 0 <= k < i ==> !record_matches(#[trigger] self.records@[k], project_id@, t, resource_id@),
            decreases self.records.len() - i,
        {
            let r = &self.records[i];
            if str_eq(r.project_id.as_str(), project_id) && r.resource_type == t
                && str_eq(r.resource_id.as_str(), resource_id) {
                return Some(i);
            }
            i += 1;
        }
        None
    }

    /// Grant access for a project to a resource, replacing an earlier grant
    /// for the same project and resource.
    pub fn grant_access(&mut self, access: ProjectResourceAccess)
        ensures
            final(self).spec_grant(access.project_id@, access.resource_type, access.resource_id@) == Some(access),
            forall|p: Seq<char>, t: ResourceType, id: Seq<char>|
                !(p == access.project_id@ && t == access.resource_type && id == access.resource_id@) ==>
                #[trigger] final(self).spec_grant(p, t, id) == old(self).spec_grant(p, t, id),
            forall|m: AccessLevel, now: i64| #[trigger] final(self).spec_has_access_at(access.project_id@,
                access.resource_type, access.resource_id@, m, now)
                == (access.spec_valid_at(now) && level_covers(access.access_level, m)),
    {
        proof {
            use_type_invariant(&*self);
        }
        let ghost s0 = self.records@;
        let found = self.find(access.project_id.as_str(), access.resource_type, access.resource_id.as_str());
        let mut records: Vec<ProjectResourceAccess> = Vec::new();
        std::mem::swap(&mut records, &mut self.records);
        let ghost removed: int = -1;
        if let Some(i) = found {
            proof {
                assert(record_matches(s0[i as int], access.project_id@, access.resource_type, access.resource_id@));
                lemma_unique_grant(s0, access.project_id@, access.resource_type, access.resource_id@);
            }
            records.remove(i);
            proof {
                removed = i as int;
                assert forall|k: int| 0 <= k < records@.len() implies
                    !record_matches(#[trigger] records@[k], access.project_id@, access.resource_type, access.resource_id@) by {
                    if k < i {
                        assert(records@[k] == s0[k]);
                    } else {
                        assert(records@[k] == s0[k + 1]);
                    }
                }
            }
        } else {
            proof {
                assert(records@ == s0);
                assert forall|k: int| 0 <= k < records@.len() implies
                    !record_matches(#[trigger] records@[k], access.project_id@, access.resource_type, access.resource_id@) by {
                    assert(s0[k] == records@[k]);
                }
            }
        }
        let ghost s1 = records@;
        proof {
            // s1 is s0 without the record for the key of `access`
            if removed >= 0 {
                assert(s1 == s0.remove(removed));
            } else {
                assert(s1 == s0);
            }
            assert(forall|k: int| 0 <= k < s1.len() ==> !record_matches(#[trigger] s1[k], access.project_id@, access.resource_type, access.resource_id@));
        }
        records.push(access);
        let ghost s2 = records@;
        let ghost n = s2.len();
        proof {
            assert(s2 == s1.push(access));
            // index map from s1 back to s0
            assert forall|k: int| 0 <= k < s1.len() implies
                #[trigger] s1[k] == s0[if removed >= 0 && k >= removed { k + 1 } else { k }] by {
            }
            assert(unique_grants(s2)) by {
                assert forall|a: int, b: int| 0 <= a < b < n implies
                    !record_matches(#[trigger] s2[a], s2[b].project_id@, #[trigger] s2[b].resource_type, s2[b].resource_id@) by {
                    if b == n - 1 {
                        assert(s2[a] == s1[a]);
                    } else {
                        assert(s2[a] == s1[a] && s2[b] == s1[b]);
                        let ia = if removed >= 0 && a >= removed { a + 1 } else { a };
                        let ib = if removed >= 0 && b >= removed { b + 1 } else { b };
                        assert(s1[a] == s0[ia] && s1[b] == s0[ib]);
                        assert(ia < ib);
                    }
                }
            }
        }
        self.records = records;
        proof {
            lemma_unique_grant(s2, access.project_id@, access.resource_type, access.resource_id@);
            assert(record_matches(s2[n - 1], access.project_id@, access.resource_type, access.resource_id@));
            assert(self.spec_records() == s2);
            assert(record_matches(self.spec_records()[n - 1], access.project_id@, access.resource_type, access.resource_id@));
            let c = choose|i: int| 0 <= i < self.spec_records().len() && record_matches(#[trigger] self.spec_records()[i], access.project_id@, access.resource_type, access.resource_id@);
            assert(c == n - 1);
            assert(self.spec_grant(access.project_id@, access.resource_type, access.resource_id@) == Some(access));
            assert forall|p: Seq<char>, t: ResourceType, id: Seq<char>|
                !(p == access.project_id@ && t == access.resource_type && id == access.resource_id@) implies
                #[trigger] self.spec_grant(p, t, id) == old(self).spec_grant(p, t, id) by {
                lemma_unique_grant(s0, p, t, id);
                lemma_unique_grant(s2, p, t, id);
                assert(old(self).spec_records() == s0);
                assert(self.spec_records() == s2);
                if exists|m: int| 0 <= m < s0.len() && record_matches(#[trigger] s0[m], p, t, id) {
                    let m = choose|m: int| 0 <= m < s0.len() && record_matches(#[trigger] s0[m], p, t, id);
                    assert(m != removed);
                    let k = if removed >= 0 && m > removed { m - 1 } else { m };
                    assert(s1[k] == s0[m]);
                    assert(s2[k] == s0[m]);
                    assert(record_matches(s2[k], p, t, id));
                    let c2 = choose|i: int| 0 <= i < s2.len() && record_matches(#[trigger] s2[i], p, t, id);
                    assert(c2 == k);
                } else {
                    assert forall|k: int| 0 <= k < n implies !record_matches(#[trigger] s2[k], p, t, id) by {
                        if k < n - 1 {
                            let m = if removed >= 0 && k >= removed { k + 1 } else { k };
                            assert(s2[k] == s0[m]);
                        }
                    }
                }
            }
        }
    }
}

impl Default for ProjectAccessStore {
    /// An empty store.
    fn default() -> (r: Self)
        ensures
            r.spec_records().len() == 0,
    {
        ProjectAccessStore::new()
    }
}

impl Clone for ProjectAccessStore {
    /// A copy of the store: the same grants in the same order.
    fn clone(&self) -> (r: Self)
        ensures
            r.spec_records().len() == self.spec_records().len(),
            forall|i: int| 0 <= i < self.spec_records().len() ==> same_grant(#[trigger] r.spec_records()[i], self.spec_records()[i]),
    {
        proof {
            use_type_invariant(self);
        }
        let mut out: Vec<ProjectResourceAccess> = Vec::new();
        let mut i: usize = 0;
        while i < self.records.len()
            invariant
                i <= self.records@.len(),
                unique_grants(self.records@),
                out@.len() == i,
                forall|k: int| 0 <= k < i ==> same_grant(#[trigger] out@[k], self.records@[k]),
            decreases self.records.len() - i,
        {
            out.push(self.records[i].copy());
            i += 1;
        }
        proof {
            assert forall|a: int, b: int| 0 <= a < b < out@.len() implies
                !record_matches(#[trigger] out@[a], out@[b].project_id@, #[trigger] out@[b].resource_type, out@[b].resource_id@) by {
                assert(same_grant(out@[a], self.records@[a]));
                assert(same_grant(out@[b], self.records@[b]));
            }
        }
        ProjectAccessStore { records: out }
    }
}

impl ProjectAccessStore {
    /// Revoke access for a project to a resource; true when a grant existed.
    pub fn revoke_access(&mut self, project_id: &str, resource_type: ResourceType, resource_id: &str) -> (r: bool)
        ensures
            r == old(self).spec_grant(project_id@, resource_type, resource_id@) is Some,
            final(self).spec_grant(project_id@, resource_type, resource_id@) is None,
            forall|p: Seq<char>, t: ResourceType, id: Seq<char>|
                !(p == project_id@ && t == resource_type && id == resource_id@) ==>
                #[trigger] final(self).spec_grant(p, t, id) == old(self).spec_grant(p, t, id),
            forall|m: AccessLevel, now: i64|
                !#[trigger] final(self).spec_has_access_at(project_id@, resource_type, resource_id@, m, now),
    {
        proof {
            use_type_invariant(&*self);
        }
        let ghost s0 = self.records@;
        let found = self.find(project_id, resource_type, resource_id);
        match found {
            None => {
                proof {
                    assert(old(self).spec_records() == s0);
                    assert(!(exists|i: int| 0 <= i < s0.len() && record_matches(#[trigger] s0[i], project_id@, resource_type, resource_id@)));
                }
                false
            },
            Some(i) => {
                proof {
                    lemma_unique_grant(s0, project_id@, resource_type, resource_id@);
                }
                let mut records: Vec<ProjectResourceAccess> = Vec::new();
                std::mem::swap(&mut records, &mut self.records);
                records.remove(i);
                let ghost s1 = records@;
                proof {
                    assert forall|k: int| 0 <= k < s1.len() implies
                        #[trigger] s1[k] == s0[if k >= i { k + 1 } else { k }] by {}
                    assert(unique_grants(s1)) by {
                        assert forall|a: int, b: int| 0 <= a < b < s1.len() implies
                            !record_matches(#[trigger] s1[a], s1[b].project_id@, #[trigger] s1[b].resource_type, s1[b].resource_id@) by {
                            let ia = if a >= i { a + 1 } else { a };
                            let ib = if b >= i { b + 1 } else { b };
                            assert(s1[a] == s0[ia] && s1[b] == s0[ib]);
                        }
                    }
                }
                self.records = records;
                proof {
                    assert(old(self).spec_records() == s0);
                    assert(self.spec_records() == s1);
                    assert forall|k: int| 0 <= k < s1.len() implies
                        #[trigger] s1[k] == s0[if k >= i { k + 1 } else { k }] by {}
                    assert forall|k: int| 0 <= k < s1.len() implies
                        !record_matches(#[trigger] s1[k], project_id@, resource_type, resource_id@) by {
                        let m = if k >= i { k + 1 } else { k };
                        assert(s1[k] == s0[m]);
                    }
                    assert(record_matches(s0[i as int], project_id@, resource_type, resource_id@));
                    assert forall|p: Seq<char>, t: ResourceType, id: Seq<char>|
                        !(p == project_id@ && t == resource_type && id == resource_id@) implies
                        #[trigger] self.spec_grant(p, t, id) == old(self).spec_grant(p, t, id) by {
                        lemma_unique_grant(s0, p, t, id);
                        lemma_unique_grant(s1, p, t, id);
                        if exists|m: int| 0 <= m < s0.len() && record_matches(#[trigger] s0[m], p, t, id) {
                            let m = choose|m: int| 0 <= m < s0.len() && record_matches(#[trigger] s0[m], p, t, id);
                            assert(m != i);
                            let k = if m > i { m - 1 } else { m };
                            assert(s1[k] == s0[m]);
                            let c1 = choose|j: int| 0 <= j < s1.len() && record_matches(#[trigger] s1[j], p, t, id);
                            assert(c1 == k);
                        } else {
                            assert forall|k: int| 0 <= k < s1.len() implies !record_matches(#[trigger] s1[k], p, t, id) by {
                                let m = if k >= i { k + 1 } else { k };
                                assert(s1[k] == s0[m]);
                            }
                        }
                    }
                }
                true
            },
        }
    }

    /// Whether a project has, at time `now`, access to a resource that
    /// covers `minimum_access`.
    pub fn has_access_at(&self, project_id: &str, resource_type: ResourceType, resource_id: &str,
        minimum_access: AccessLevel, now: i64) -> (r: bool)
        ensures
            r == self.spec_has_access_at(project_id@, resource_type, resource_id@, minimum_access, now),
    {
        proof {
            use_type_invariant(self);
        }
        match self.find(project_id, resource_type, resource_id) {
            Some(i) => {
                proof {
                    lemma_unique_grant(self.records@, project_id@, resource_type, resource_id@);
                    let c = choose|j: int| 0 <= j < self.spec_records().len() && record_matches(#[trigger] self.spec_records()[j], project_id@, resource_type, resource_id@);
                    assert(c == i);
                }
                let record = &self.records[i];
                record.is_valid_at(now) && access_level_covers(record.access_level, minimum_access)
            },
            None => false,
        }
    }

    /// Check if a project has specific access to a resource, now.
    pub fn has_access(&self, project_id: &str, resource_type: ResourceType, resource_id: &str,
        minimum_access: AccessLevel) -> (r: bool)
        ensures
            exists|now: i64| r == self.spec_has_access_at(project_id@, resource_type, resource_id@, minimum_access, now),
    {
        let now = now_unix_secs();
        self.has_access_at(project_id, resource_type, resource_id, minimum_access, now)
    }

    /// The level of the grant in force at time `now`, if any.
    pub fn get_access_level_at(&self, project_id: &str, resource_type: ResourceType, resource_id: &str,
        now: i64) -> (r: Option<AccessLevel>)
        ensures
            r == self.spec_access_level_at(project_id@, resource_type, resource_id@, now),
    {
        proof {
            use_type_invariant(self);
        }
        match self.find(project_id, resource_type, resource_id) {
            Some(i) => {
                proof {
                    lemma_unique_grant(self.records@, project_id@, resource_type, resource_id@);
                    let c = choose|j: int| 0 <= j < self.spec_records().len() && record_matches(#[trigger] self.spec_records()[j], project_id@, resource_type, resource_id@);
                    assert(c == i);
                }
                let record = &self.records[i];
                if record.is_valid_at(now) {
                    Some(record.access_level)
                } else {
                    None
                }
            },
            None => None,
        }
    }

    /// Get the access level a project has for a resource, now.
    pub fn get_access_level(&self, project_id: &str, resource_type: ResourceType, resource_id: &str) -> (r: Option<AccessLevel>)
        ensures
            exists|now: i64| r == self.spec_access_level_at(project_id@, resource_type, resource_id@, now),
    {
        let now = now_unix_secs();
        self.get_access_level_at(project_id, resource_type, resource_id, now)
    }

    /// The projects with a grant in force at time `now` for a resource, in
    /// the order their grants were made.
    pub fn list_projects_with_access_at(&self, resource_type: ResourceType, resource_id: &str, now: i64) -> (r: Vec<String>)
        ensures
            r@.map_values(|s: String| s@) == spec_projects_with_access(self.spec_records(), resource_type, resource_id@, now),
    {
        let mut out: Vec<String> = Vec::new();
        let mut i: usize = 0;
        while i < self.records.len()
            invariant
                i <= self.records@.len(),
                out@.map_values(|s: String| s@) == spec_projects_with_access(self.records@.subrange(0, i as int), resource_type, resource_id@, now),
            decreases self.records.len() - i,
        {
            let r = &self.records[i];
            proof {
                assert(self.records@.subrange(0, i + 1).drop_last() =~= self.records@.subrange(0, i as int));
            }
            if r.resource_type == resource_type && str_eq(r.resource_id.as_str(), resource_id) && r.is_valid_at(now) {
                out.push(r.project_id.clone());
                proof {
                    assert(out@.map_values(|s: String| s@) =~= spec_projects_with_access(self.records@.subrange(0, i as int), resource_type, resource_id@, now).push(r.project_id@));
                }
            }
            i += 1;
        }
        proof {
            assert(self.records@.subrange(0, self.records@.len() as int) =~= self.records@);
        }
        out
    }

    /// List all projects that have access to a resource, now.
    pub fn list_projects_with_access(&self, resource_type: ResourceType, resource_id: &str) -> (r: Vec<String>)
        ensures
            exists|now: i64| r@.map_values(|s: String| s@) == spec_projects_with_access(self.spec_records(), resource_type, resource_id@, now),
    {
        let now = now_unix_secs();
        self.list_projects_with_access_at(resource_type, resource_id, now)
    }

    /// The resources a project has a grant in force for at time `now`,
    /// optionally of one type, with their levels.
    pub fn list_resources_for_project_at(&self, project_id: &str, resource_type: Option<ResourceType>, now: i64)
        -> (r: Vec<(ResourceType, String, AccessLevel)>)
        ensures
            r@.map_values(|e: (ResourceType, String, AccessLevel)| (e.0, e.1@, e.2))
                == spec_resources_for_project(self.spec_records(), project_id@, resource_type, now),
    {
        let mut out: Vec<(ResourceType, String, AccessLevel)> = Vec::new();
        let mut i: usize = 0;
        while i < self.records.len()
            invariant
                i <= self.records@.len(),
                out@.map_values(|e: (ResourceType, String, AccessLevel)| (e.0, e.1@, e.2))
                    == spec_resources_for_project(self.records@.subrange(0, i as int), project_id@, resource_type, now),
            decreases self.records.len() - i,
        {
            let r = &self.records[i];
            proof {
                assert(self.records@.subrange(0, i + 1).drop_last() =~= self.records@.subrange(0, i as int));
            }
            let type_ok = match resource_type {
                Some(t) => r.resource_type == t,
                None => true,
            };
            if type_ok && str_eq(r.project_id.as_str(), project_id) && r.is_valid_at(now) {
                out.push((r.resource_type, r.resource_id.clone(), r.access_level));
                proof {
                    assert(out@.map_values(|e: (ResourceType, String, AccessLevel)| (e.0, e.1@, e.2)) =~=
                        spec_resources_for_project(self.records@.subrange(0, i as int), project_id@, resource_type, now)
                            .push((r.resource_type, r.resource_id@, r.access_level)));
                }
            }
            i += 1;
        }
        proof {
            assert(self.records@.subrange(0, self.records@.len() as int) =~= self.records@);
        }
        out
    }

    /// List all resources a project has access to, now.
    pub fn list_resources_for_project(&self, project_id: &str, resource_type: Option<ResourceType>)
        -> (r: Vec<(ResourceType, String, AccessLevel)>)
        ensures
            exists|now: i64| r@.map_values(|e: (ResourceType, String, AccessLevel)| (e.0, e.1@, e.2))
                == spec_resources_for_project(self.spec_records(), project_id@, resource_type, now),
    {
        let now = now_unix_secs();
        self.list_resources_for_project_at(project_id, resource_type, now)
    }
}

/// The projects whose grants for a resource are in force at `now`, in order.
pub open spec fn spec_projects_with_access(s: Seq<ProjectResourceAccess>, t: ResourceType, id: Seq<char>, now: i64) -> Seq<Seq<char>>
    decreases s.len(),
{
    if s.len() == 0 {
        Seq::empty()
    } else {
        let rest = spec_projects_with_access(s.drop_last(), t, id, now);
        let g = s.last();
        if g.resource_type == t && g.resource_id@ == id && g.spec_valid_at(now) {
            rest.push(g.project_id@)
        } else {
            rest
        }
    }
}

/// The resources (with levels) that a project's grants in force at `now`
/// cover, optionally of one type, in order.
pub open spec fn spec_resources_for_project(s: Seq<ProjectResourceAccess>, project_id: Seq<char>,
    t: Option<ResourceType>, now: i64) -> Seq<(ResourceType, Seq<char>, AccessLevel)>
    decreases s.len(),
{
    if s.len() == 0 {
        Seq::empty()
    } else {
        let rest = spec_resources_for_project(s.drop_last(), project_id, t, now);
        let g = s.last();
        let type_ok = match t {
            Some(tt) => g.resource_type == tt,
            None => true,
        };
        if type_ok && g.project_id@ == project_id && g.spec_valid_at(now) {
            rest.push((g.resource_type, g.resource_id@, g.access_level))
        } else {
            rest
        }
    }
}

/// Why a project may not use a resource.
#[derive(Debug, Clone)]
pub enum ProjectAccessError {
    /// Project does not have access to the resource
    AccessDenied {
        project_id: String,
        resource_type: ResourceType,
        resource_id: String,
        required_access: AccessLevel,
    },
    /// Resource not found
    ResourceNotFound {
        resource_type: ResourceType,
        resource_id: String,
    },
    /// Project not found
    ProjectNotFound {
        project_id: String,
    },
    /// User doesn't have permission to manage access
    PermissionDenied {
        reason: String,
    },
    /// Other errors
    Other(String),
}

/// The debug name of a resource type.
pub open spec fn spec_resource_type_name(t: ResourceType) -> Seq<char> {
    match t {
        ResourceType::Agent => "Agent"@,
        ResourceType::Model => "Model"@,
    }
}

/// The debug name of an access level.
pub open spec fn spec_access_level_name(l: AccessLevel) -> Seq<char> {
    match l {
        AccessLevel::ReadOnly => "ReadOnly"@,
        AccessLevel::FullAccess => "FullAccess"@,
        AccessLevel::Owner => "Owner"@,
    }
}

/// The debug name of a resource type.
pub fn resource_type_name(t: ResourceType) -> (r: &'static str)
    ensures
        r@ == spec_resource_type_name(t),
{
    match t {
        ResourceType::Agent => "Agent",
        ResourceType::Model => "Model",
    }
}

/// The debug name of an access level.
pub fn access_level_name(l: AccessLevel) -> (r: &'static str)
    ensures
        r@ == spec_access_level_name(l),
{
    match l {
        AccessLevel::ReadOnly => "ReadOnly",
        AccessLevel::FullAccess => "FullAccess",
        AccessLevel::Owner => "Owner",
    }
}

/// The one-line description of an access error.
pub open spec fn spec_access_error_text(e: ProjectAccessError) -> Seq<char> {
    match e {
        ProjectAccessError::AccessDenied { project_id, resource_type, resource_id, required_access } =>
            "Project "@ + project_id@ + " does not have "@ + spec_access_level_name(required_access)
                + " access to "@ + spec_resource_type_name(resource_type) + " "@ + resource_id@,
        ProjectAccessError::ResourceNotFound { resource_type, resource_id } =>
            spec_resource_type_name(resource_type) + " with ID "@ + resource_id@ + " not found"@,
        ProjectAccessError::ProjectNotFound { project_id } => "Project with ID "@ + project_id@ + " not found"@,
        ProjectAccessError::PermissionDenied { reason } => "Permission denied: "@ + reason@,
        ProjectAccessError::Other(msg) => "Project access error: "@ + msg@,
    }
}

impl ProjectAccessError {
    /// The one-line description of the error.
    pub fn describe(&self) -> (r: String)
        ensures
            r@ == spec_access_error_text(*self),
    {
        match self {
            ProjectAccessError::AccessDenied { project_id, resource_type, resource_id, required_access } => {
                let a = concat("Project ", project_id.as_str());
                let b = concat(a.as_str(), " does not have ");
                let c = concat(b.as_str(), access_level_name(*required_access));
                let d = concat(c.as_str(), " access to ");
                let e = concat(d.as_str(), resource_type_name(*resource_type));
                let f = concat(e.as_str(), " ");
                concat(f.as_str(), resource_id.as_str())
            },
            ProjectAccessError::ResourceNotFound { resource_type, resource_id } => {
                let a = concat(resource_type_name(*resource_type), " with ID ");
                let b = concat(a.as_str(), resource_id.as_str());
                concat(b.as_str(), " not found")
            },
            ProjectAccessError::ProjectNotFound { project_id } => {
                let a = concat("Project with ID ", project_id.as_str());
                concat(a.as_str(), " not found")
            },
            ProjectAccessError::PermissionDenied { reason } => concat("Permission denied: ", reason.as_str()),
            ProjectAccessError::Other(msg) => concat("Project access error: ", msg.as_str()),
        }
    }

    /// The HTTP status of the error.
    pub fn status_code(&self) -> (r: u16)
        ensures
            r == (match *self {
                ProjectAccessError::AccessDenied { .. } => 403u16,
                ProjectAccessError::ResourceNotFound { .. } => 404u16,
                ProjectAccessError::ProjectNotFound { .. } => 404u16,
                ProjectAccessError::PermissionDenied { .. } => 403u16,
                ProjectAccessError::Other(_) => 500u16,
            }),
    {
        match self {
            ProjectAccessError::AccessDenied { .. } => 403,
            ProjectAccessError::ResourceNotFound { .. } => 404,
            ProjectAccessError::ProjectNotFound { .. } => 404,
            ProjectAccessError::PermissionDenied { .. } => 403,
            ProjectAccessError::Other(_) => 500,
        }
    }

    /// The machine-readable error code of the error.
    pub fn error_code(&self) -> (r: &'static str)
        ensures
            r@ == (match *self {
                ProjectAccessError::AccessDenied { .. } => "resource_access_denied"@,
                ProjectAccessError::ResourceNotFound { .. } => "resource_not_found"@,
                ProjectAccessError::ProjectNotFound { .. } => "project_not_found"@,
                ProjectAccessError::PermissionDenied { .. } => "permission_denied"@,
                ProjectAccessError::Other(_) => "project_access_error"@,
            }),
    {
        match self {
            ProjectAccessError::AccessDenied { .. } => "resource_access_denied",
            ProjectAccessError::ResourceNotFound { .. } => "resource_not_found",
            ProjectAccessError::ProjectNotFound { .. } => "project_not_found",
            ProjectAccessError::PermissionDenied { .. } => "permission_denied",
            ProjectAccessError::Other(_) => "project_access_error",
        }
    }

    /// The message of the error's response.
    pub fn response_message(&self) -> (r: String)
        ensures
            r@ == (match *self {
                ProjectAccessError::AccessDenied { .. } => "Project does not have sufficient access to this resource"@,
                ProjectAccessError::ResourceNotFound { .. } => "The requested resource was not found"@,
                ProjectAccessError::ProjectNotFound { project_id } => "Project with ID "@ + project_id@ + " not found"@,
                ProjectAccessError::PermissionDenied { .. } => "You don't have permission to perform this operation"@,
                ProjectAccessError::Other(msg) => msg@,
            }),
    {
        match self {
            ProjectAccessError::AccessDenied { .. } => owned("Project does not have sufficient access to this resource"),
            ProjectAccessError::ResourceNotFound { .. } => owned("The requested resource was not found"),
            ProjectAccessError::ProjectNotFound { project_id } => {
                let a = concat("Project with ID ", project_id.as_str());
                concat(a.as_str(), " not found")
            },
            ProjectAccessError::PermissionDenied { .. } => owned("You don't have permission to perform this operation"),
            ProjectAccessError::Other(msg) => msg.clone(),
        }
    }
}

/// Verify a project has, at time `now`, the required access to a resource.
pub fn verify_project_resource_access_at(
    access_store: &ProjectAccessStore,
    project_id: &str,
    resource_type: ResourceType,
    resource_id: &str,
    required_access: AccessLevel,
    now: i64,
) -> (r: Result<(), ProjectAccessError>)
    ensures
        match r {
            Ok(()) => access_store.spec_has_access_at(project_id@, resource_type, resource_id@, required_access, now),
            Err(e) => !access_store.spec_has_access_at(project_id@, resource_type, resource_id@, required_access, now)
                && (e matches ProjectAccessError::AccessDenied { project_id: p, resource_type: t, resource_id: id, required_access: a }
                && p@ == project_id@ && t == resource_type && id@ == resource_id@ && a == required_access),
        },
{
    if access_store.has_access_at(project_id, resource_type, resource_id, required_access, now) {
        Ok(())
    } else {
        Err(ProjectAccessError::AccessDenied {
            project_id: owned(project_id),
            resource_type,
            resource_id: owned(resource_id),
            required_access,
        })
    }
}

/// Verify a project has required access to a resource, now.
pub fn verify_project_resource_access(
    access_store: &ProjectAccessStore,
    project_id: &str,
    resource_type: ResourceType,
    resource_id: &str,
    required_access: AccessLevel,
) -> (r: Result<(), ProjectAccessError>)
    ensures
        exists|now: i64| match r {
            Ok(()) => access_store.spec_has_access_at(project_id@, resource_type, resource_id@, required_access, now),
            Err(e) => !access_store.spec_has_access_at(project_id@, resource_type, resource_id@, required_access, now)
                && (e matches ProjectAccessError::AccessDenied { project_id: p, resource_type: t, resource_id: id, required_access: a }
                && p@ == project_id@ && t == resource_type && id@ == resource_id@ && a == required_access),
        },
{
    let now = now_unix_secs();
    verify_project_resource_access_at(access_store, project_id, resource_type, resource_id, required_access, now)
}

/// In a list with at most one record per key, the record for a key is unique.
proof fn lemma_unique_grant(s: Seq<ProjectResourceAccess>, p: Seq<char>, t: ResourceType, id: Seq<char>)
    requires
        forall|i: int, j: int| 0 <= i < j < s.len() ==>
            !record_matches(#[trigger] s[i], s[j].project_id@, #[trigger] s[j].resource_type, s[j].resource_id@),
    ensures
        forall|i: int, j: int| 0 <= i < s.len() && 0 <= j < s.len()
            && record_matches(#[trigger] s[i], p, t, id) && record_matches(#[trigger] s[j], p, t, id) ==> i == j,
{
    assert forall|i: int, j: int| 0 <= i < s.len() && 0 <= j < s.len()
        && record_matches(#[trigger] s[i], p, t, id) && record_matches(#[trigger] s[j], p, t, id) implies i == j by {
        if i < j {
            assert(!record_matches(s[i], s[j].project_id@, s[j].resource_type, s[j].resource_id@));
        } else if j < i {
            assert(!record_matches(s[j], s[i].project_id@, s[i].resource_type, s[i].resource_id@));
        }
    }
}


/// One change to a store: the key (project, resource type, resource) it
/// concerns and the grant made for it, or `None` for a revocation.
pub open spec fn change_applied(after: ProjectAccessStore, before: ProjectAccessStore,
    change: (Seq<char>, ResourceType, Seq<char>, Option<ProjectResourceAccess>)) -> bool
{
    &&& after.spec_grant(change.0, change.1, change.2) == change.3
    &&& forall|p: Seq<char>, t: ResourceType, id: Seq<char>| !(p == change.0 && t == change.1 && id == change.2)
        ==> #[trigger] after.spec_grant(p, t, id) == before.spec_grant(p, t, id)
}

/// The grant in force for a key after `changes`: the latest grant for it
/// not followed by a revocation of it.
pub open spec fn latest_grant(changes: Seq<(Seq<char>, ResourceType, Seq<char>, Option<ProjectResourceAccess>)>,
    p: Seq<char>, t: ResourceType, id: Seq<char>) -> Option<ProjectResourceAccess>
    decreases changes.len(),
{
    if changes.len() == 0 {
        None
    } else if changes.last().0 == p && changes.last().1 == t && changes.last().2 == id {
        changes.last().3
    } else {
        latest_grant(changes.drop_last(), p, t, id)
    }
}

/// Over a history of grants and revocations starting from an empty store
/// (each step as `grant_access` and `revoke_access` state it), the level a
/// project has at time `now` is that of the latest grant for the key not
/// followed by its revocation, if the grant is in force then.
pub proof fn lemma_access_history(stores: Seq<ProjectAccessStore>,
    changes: Seq<(Seq<char>, ResourceType, Seq<char>, Option<ProjectResourceAccess>)>, p: Seq<char>, t: ResourceType,
    id: Seq<char>, now: i64)
    requires
        stores.len() == changes.len() + 1,
        forall|p2: Seq<char>, t2: ResourceType, id2: Seq<char>| #[trigger] stores[0].spec_grant(p2, t2, id2) is None,
        forall|i: int| 0 <= i < changes.len() ==> change_applied(#[trigger] stores[i + 1], stores[i], changes[i]),
    ensures
        stores.last().spec_grant(p, t, id) == latest_grant(changes, p, t, id),
        stores.last().spec_access_level_at(p, t, id, now) == match latest_grant(changes, p, t, id) {
            Some(g) => if g.spec_valid_at(now) { Some(g.access_level) } else { None },
            None => None,
        },
    decreases changes.len(),
{
    if changes.len() > 0 {
        let n = changes.len() - 1;
        let prev = stores.take(n + 1);
        assert forall|i: int| 0 <= i < changes.drop_last().len() implies change_applied(#[trigger] prev[i + 1], prev[i],
            changes.drop_last()[i]) by {
            assert(prev[i + 1] == stores[i + 1] && prev[i] == stores[i]);
            assert(change_applied(stores[i + 1], stores[i], changes[i]));
        }
        assert(prev[0] == stores[0]);
        lemma_access_history(prev, changes.drop_last(), p, t, id, now);
        assert(change_applied(stores[n + 1], stores[n], changes[n]));
        assert(prev.last() == stores[n]);
    }
}

/// The record `g` appears in the listing of `project_id`'s resources (of
/// type `t`, if given) at time `now`.
pub open spec fn listed(g: ProjectResourceAccess, project_id: Seq<char>, t: Option<ResourceType>, now: i64) -> bool {
    &&& match t {
        Some(tt) => g.resource_type == tt,
        None => true,
    }
    &&& g.project_id@ == project_id
    &&& g.spec_valid_at(now)
}

/// The entry a record gives in a listing.
pub open spec fn listing_entry(g: ProjectResourceAccess) -> (ResourceType, Seq<char>, AccessLevel) {
    (g.resource_type, g.resource_id@, g.access_level)
}

/// The positions of the records that a listing's entries come from.
pub open spec fn listing_sources(s: Seq<ProjectResourceAccess>, p: Seq<char>, t: Option<ResourceType>, now: i64) -> Seq<int>
    decreases s.len(),
{
    if s.len() == 0 {
        Seq::empty()
    } else if listed(s.last(), p, t, now) {
        listing_sources(s.drop_last(), p, t, now).push(s.len() - 1)
    } else {
        listing_sources(s.drop_last(), p, t, now)
    }
}

proof fn lemma_listing_shape(s: Seq<ProjectResourceAccess>, p: Seq<char>, t: Option<ResourceType>, now: i64)
    ensures
        listing_sources(s, p, t, now).len() == spec_resources_for_project(s, p, t, now).len(),
        forall|k: int| 0 <= k < listing_sources(s, p, t, now).len() ==> {
            let i = #[trigger] listing_sources(s, p, t, now)[k];
            &&& 0 <= i < s.len()
            &&& listed(s[i], p, t, now)
            &&& spec_resources_for_project(s, p, t, now)[k] == listing_entry(s[i])
        },
        forall|k1: int, k2: int| 0 <= k1 < k2 < listing_sources(s, p, t, now).len()
            ==> #[trigger] listing_sources(s, p, t, now)[k1] < #[trigger] listing_sources(s, p, t, now)[k2],
        forall|i: int| 0 <= i < s.len() && listed(#[trigger] s[i], p, t, now)
            ==> spec_resources_for_project(s, p, t, now).contains(listing_entry(s[i])),
    decreases s.len(),
{
    if s.len() > 0 {
        let sp = s.drop_last();
        let n = s.len() - 1;
        lemma_listing_shape(sp, p, t, now);
        let lp = spec_resources_for_project(sp, p, t, now);
        let l = spec_resources_for_project(s, p, t, now);
        let srcp = listing_sources(sp, p, t, now);
        let src = listing_sources(s, p, t, now);
        assert forall|k: int| 0 <= k < src.len() implies {
            let i = #[trigger] src[k];
            &&& 0 <= i < s.len()
            &&& listed(s[i], p, t, now)
            &&& l[k] == listing_entry(s[i])
        } by {
            if k < srcp.len() {
                assert(src[k] == srcp[k]);
                assert(l[k] == lp[k]);
                assert(sp[srcp[k]] == s[srcp[k]]);
            }
        }
        assert forall|k1: int, k2: int| 0 <= k1 < k2 < src.len() implies #[trigger] src[k1] < #[trigger] src[k2] by {
            assert(src[k1] == srcp[k1]);
            if k2 < srcp.len() {
                assert(src[k2] == srcp[k2]);
            }
        }
        assert forall|i: int| 0 <= i < s.len() && listed(#[trigger] s[i], p, t, now) implies l.contains(listing_entry(s[i])) by {
            if i < n {
                assert(sp[i] == s[i]);
                assert(lp.contains(listing_entry(sp[i])));
                let k = choose|k: int| 0 <= k < lp.len() && lp[k] == listing_entry(sp[i]);
                assert(l[k] == lp[k]);
            } else {
                assert(l[lp.len() as int] == listing_entry(s[n]));
            }
        }
    }
}

impl ProjectAccessStore {
    /// The listing of a project's resources is the set of resources in force
    /// for it (of the asked type, if any) with their levels, each resource
    /// listed once.
    pub proof fn lemma_listing_is_in_force(&self, project_id: Seq<char>, t: Option<ResourceType>, now: i64)
        requires
            self.wf(),
        ensures
            forall|k: int| 0 <= k < spec_resources_for_project(self.spec_records(), project_id, t, now).len() ==> {
                let e = #[trigger] spec_resources_for_project(self.spec_records(), project_id, t, now)[k];
                &&& self.spec_access_level_at(project_id, e.0, e.1, now) == Some(e.2)
                &&& match t { Some(tt) => e.0 == tt, None => true }
            },
            forall|rt: ResourceType, id: Seq<char>|
                #[trigger] self.spec_access_level_at(project_id, rt, id, now) is Some
                && (match t { Some(tt) => rt == tt, None => true })
                ==> spec_resources_for_project(self.spec_records(), project_id, t, now).contains(
                    (rt, id, self.spec_access_level_at(project_id, rt, id, now).unwrap())),
            forall|k1: int, k2: int| 0 <= k1 < k2 < spec_resources_for_project(self.spec_records(), project_id, t, now).len()
                ==> (#[trigger] spec_resources_for_project(self.spec_records(), project_id, t, now)[k1]).0
                    != (#[trigger] spec_resources_for_project(self.spec_records(), project_id, t, now)[k2]).0
                || spec_resources_for_project(self.spec_records(), project_id, t, now)[k1].1
                    != spec_resources_for_project(self.spec_records(), project_id, t, now)[k2].1,
    {
        let s = self.spec_records();
        let l = spec_resources_for_project(s, project_id, t, now);
        {
            lemma_listing_shape(s, project_id, t, now);
            let src = listing_sources(s, project_id, t, now);
            assert forall|k: int| 0 <= k < l.len() implies {
                let e = #[trigger] l[k];
                &&& self.spec_access_level_at(project_id, e.0, e.1, now) == Some(e.2)
                &&& match t { Some(tt) => e.0 == tt, None => true }
            } by {
                let i = src[k];
                lemma_unique_grant(s, project_id, s[i].resource_type, s[i].resource_id@);
                assert(record_matches(s[i], project_id, s[i].resource_type, s[i].resource_id@));
            }
            assert forall|rt: ResourceType, id: Seq<char>|
                #[trigger] self.spec_access_level_at(project_id, rt, id, now) is Some
                && (match t { Some(tt) => rt == tt, None => true })
                implies l.contains((rt, id, self.spec_access_level_at(project_id, rt, id, now).unwrap())) by {
                let i = choose|i: int| 0 <= i < s.len() && record_matches(#[trigger] s[i], project_id, rt, id);
                assert(listed(s[i], project_id, t, now));
                assert(listing_entry(s[i]) == (rt, id, self.spec_access_level_at(project_id, rt, id, now).unwrap()));
            }
            assert forall|k1: int, k2: int| 0 <= k1 < k2 < l.len() implies (#[trigger] l[k1]).0 != (#[trigger] l[k2]).0
                || l[k1].1 != l[k2].1 by {
                let i1 = src[k1];
                let i2 = src[k2];
                assert(i1 < i2);
                if l[k1].0 == l[k2].0 && l[k1].1 == l[k2].1 {
                    lemma_unique_grant(s, project_id, l[k1].0, l[k1].1);
                    assert(record_matches(s[i1], project_id, l[k1].0, l[k1].1));
                    assert(record_matches(s[i2], project_id, l[k1].0, l[k1].1));
                }
            }
        }
    }
}

proof fn lemma_projects_listing(s: Seq<ProjectResourceAccess>, t: ResourceType, id: Seq<char>, now: i64)
    requires
        forall|i: int, j: int| 0 <= i < j < s.len() ==>
            !record_matches(#[trigger] s[i], s[j].project_id@, #[trigger] s[j].resource_type, s[j].resource_id@),
    ensures
        spec_projects_with_access(s, t, id, now).no_duplicates(),
        forall|p: Seq<char>| #[trigger] spec_projects_with_access(s, t, id, now).contains(p) <==>
            exists|i: int| 0 <= i < s.len() && record_matches(s[i], p, t, id) && s[i].spec_valid_at(now),
    decreases s.len(),
{
    if s.len() > 0 {
        let sp = s.drop_last();
        let n = s.len() - 1;
        assert forall|i: int, j: int| 0 <= i < j < sp.len() implies
            !record_matches(#[trigger] sp[i], sp[j].project_id@, #[trigger] sp[j].resource_type, sp[j].resource_id@) by {
            assert(sp[i] == s[i] && sp[j] == s[j]);
        }
        lemma_projects_listing(sp, t, id, now);
        let rest = spec_projects_with_access(sp, t, id, now);
        let l = spec_projects_with_access(s, t, id, now);
        let g = s.last();
        if g.resource_type == t && g.resource_id@ == id && g.spec_valid_at(now) {
            if rest.contains(g.project_id@) {
                let i = choose|i: int| 0 <= i < sp.len() && record_matches(sp[i], g.project_id@, t, id) && sp[i].spec_valid_at(now);
                assert(sp[i] == s[i]);
                assert(!record_matches(s[i], s[n].project_id@, s[n].resource_type, s[n].resource_id@));
            }
            assert forall|p: Seq<char>| #[trigger] l.contains(p) <==>
                exists|i: int| 0 <= i < s.len() && record_matches(s[i], p, t, id) && s[i].spec_valid_at(now) by {
                if l.contains(p) {
                    if p == g.project_id@ {
                        assert(record_matches(s[n], p, t, id));
                    } else {
                        let k = choose|k: int| 0 <= k < l.len() && l[k] == p;
                        assert(k < rest.len());
                        assert(rest[k] == p);
                        assert(rest.contains(p));
                        let i = choose|i: int| 0 <= i < sp.len() && record_matches(sp[i], p, t, id) && sp[i].spec_valid_at(now);
                        assert(sp[i] == s[i]);
                    }
                }
                if exists|i: int| 0 <= i < s.len() && record_matches(s[i], p, t, id) && s[i].spec_valid_at(now) {
                    let i = choose|i: int| 0 <= i < s.len() && record_matches(s[i], p, t, id) && s[i].spec_valid_at(now);
                    if i == n {
                        assert(l[rest.len() as int] == p);
                    } else {
                        assert(sp[i] == s[i]);
                        assert(rest.contains(p));
                        let k = choose|k: int| 0 <= k < rest.len() && rest[k] == p;
                        assert(l[k] == p);
                    }
                }
            }
        } else {
            assert forall|p: Seq<char>| #[trigger] l.contains(p) <==>
                exists|i: int| 0 <= i < s.len() && record_matches(s[i], p, t, id) && s[i].spec_valid_at(now) by {
                if exists|i: int| 0 <= i < s.len() && record_matches(s[i], p, t, id) && s[i].spec_valid_at(now) {
                    let i = choose|i: int| 0 <= i < s.len() && record_matches(s[i], p, t, id) && s[i].spec_valid_at(now);
                    assert(i != n);
                    assert(sp[i] == s[i]);
                }
                if l.contains(p) {
                    assert(l == rest);
                    let i = choose|i: int| 0 <= i < sp.len() && record_matches(sp[i], p, t, id) && sp[i].spec_valid_at(now);
                    assert(sp[i] == s[i]);
                }
            }
        }
    }
}

impl ProjectAccessStore {
    /// The projects listed for a resource are those with a grant in force
    /// for it, each named once (a grant replaces any earlier one for its
    /// key).
    pub proof fn lemma_projects_listed_once(&self, t: ResourceType, id: Seq<char>, now: i64)
        requires
            self.wf(),
        ensures
            spec_projects_with_access(self.spec_records(), t, id, now).no_duplicates(),
            forall|p: Seq<char>| #[trigger] spec_projects_with_access(self.spec_records(), t, id, now).contains(p)
                <==> self.spec_access_level_at(p, t, id, now) is Some,
    {
        let s = self.spec_records();
        lemma_projects_listing(s, t, id, now);
        assert forall|p: Seq<char>| #[trigger] spec_projects_with_access(s, t, id, now).contains(p)
            <==> self.spec_access_level_at(p, t, id, now) is Some by {
            if spec_projects_with_access(s, t, id, now).contains(p) {
                let i = choose|i: int| 0 <= i < s.len() && record_matches(s[i], p, t, id) && s[i].spec_valid_at(now);
                lemma_unique_grant(s, p, t, id);
                assert(record_matches(s[i], p, t, id));
            }
            if self.spec_access_level_at(p, t, id, now) is Some {
                let i = choose|i: int| 0 <= i < s.len() && record_matches(#[trigger] s[i], p, t, id);
                assert(record_matches(s[i], p, t, id) && s[i].spec_valid_at(now));
            }
        }
    }
}
} // verus!
