//! The audit trail of API keys: the events of each key, the most recent
//! ones kept, and the queries over them.

use vstd::prelude::*;
use crate::clock::{utc_now_secs, time_ok};
use crate::ordered::StrMap;
use crate::text::str_eq;

verus! {

broadcast use vstd::seq_lib::group_to_multiset_ensures;

/// The most events kept in memory per API key.
pub const MAX_EVENTS_PER_KEY: usize = 1000;

/// Types of API key events; times are Unix seconds.
#[derive(Debug, Clone)]
pub enum ApiKeyEventType {
    /// API key was created
    Created,
    /// API key was used for authentication
    Used { path: String, method: String, status_code: u16, rate_limited: bool },
    /// API key was revoked
    Revoked { reason: Option<String> },
    /// API key permissions were updated
    PermissionsUpdated { previous_scope: String, new_scope: String },
    /// API key expiration date was updated
    ExpirationUpdated { previous_expiration: Option<i64>, new_expiration: Option<i64> },
}

/// A single API key event; `timestamp` is in Unix seconds.
#[derive(Debug, Clone)]
pub struct ApiKeyEvent {
    /// ID of the API key
    pub api_key_id: String,
    /// Account ID that owns the key
    pub account_id: String,
    /// When the event occurred
    pub timestamp: i64,
    /// IP address that initiated the event, if available
    pub ip_address: Option<String>,
    /// Type of event
    pub event_type: ApiKeyEventType,
    /// User agent, if available
    pub user_agent: Option<String>,
}

/// A copy of an optional string.
fn copy_opt(o: &Option<String>) -> (r: Option<String>)
    ensures
        r == *o,
{
    match o {
        Some(s) => Some(s.clone()),
        None => None,
    }
}

impl ApiKeyEventType {
    /// A copy of the event type.
    pub fn copy(&self) -> (r: Self)
        ensures
            r == *self,
    {
        match self {
            ApiKeyEventType::Created => ApiKeyEventType::Created,
            ApiKeyEventType::Used { path, method, status_code, rate_limited } => ApiKeyEventType::Used {
                path: path.clone(),
                method: method.clone(),
                status_code: *status_code,
                rate_limited: *rate_limited,
            },
            ApiKeyEventType::Revoked { reason } => ApiKeyEventType::Revoked { reason: copy_opt(reason) },
            ApiKeyEventType::PermissionsUpdated { previous_scope, new_scope } => ApiKeyEventType::PermissionsUpdated {
                previous_scope: previous_scope.clone(),
                new_scope: new_scope.clone(),
            },
            ApiKeyEventType::ExpirationUpdated { previous_expiration, new_expiration } =>
                ApiKeyEventType::ExpirationUpdated {
                    previous_expiration: *previous_expiration,
                    new_expiration: *new_expiration,
                },
        }
    }
}

impl ApiKeyEvent {
    /// An event of `event_type` on the key `api_key_id` of `account_id`, now.
    fn now(api_key_id: String, account_id: String, ip_address: Option<String>, event_type: ApiKeyEventType,
        user_agent: Option<String>) -> (r: Self)
        ensures
            r.api_key_id == api_key_id,
            r.account_id == account_id,
            time_ok(r.timestamp),
            r.ip_address == ip_address,
            r.event_type == event_type,
            r.user_agent == user_agent,
    {
        ApiKeyEvent { api_key_id, account_id, timestamp: utc_now_secs(), ip_address, event_type, user_agent }
    }

    /// A new usage event, stamped now.
    pub fn new_usage(
        api_key_id: String,
        account_id: String,
        path: String,
        method: String,
        status_code: u16,
        ip_address: Option<String>,
        user_agent: Option<String>,
        rate_limited: bool,
    ) -> (r: Self)
        ensures
            r.api_key_id == api_key_id,
            r.account_id == account_id,
            time_ok(r.timestamp),
            r.ip_address == ip_address,
            r.event_type == (ApiKeyEventType::Used { path, method, status_code, rate_limited }),
            r.user_agent == user_agent,
    {
        ApiKeyEvent::now(api_key_id, account_id, ip_address, ApiKeyEventType::Used { path, method, status_code, rate_limited },
            user_agent)
    }

    /// A new creation event, stamped now.
    pub fn new_creation(api_key_id: String, account_id: String, ip_address: Option<String>, user_agent: Option<String>) -> (r: Self)
        ensures
            r.api_key_id == api_key_id,
            r.account_id == account_id,
            time_ok(r.timestamp),
            r.ip_address == ip_address,
            r.event_type == ApiKeyEventType::Created,
            r.user_agent == user_agent,
    {
        ApiKeyEvent::now(api_key_id, account_id, ip_address, ApiKeyEventType::Created, user_agent)
    }

    /// A new revocation event, stamped now.
    pub fn new_revocation(api_key_id: String, account_id: String, reason: Option<String>, ip_address: Option<String>,
        user_agent: Option<String>) -> (r: Self)
        ensures
            r.api_key_id == api_key_id,
            r.account_id == account_id,
            time_ok(r.timestamp),
            r.ip_address == ip_address,
            r.event_type == (ApiKeyEventType::Revoked { reason }),
            r.user_agent == user_agent,
    {
        ApiKeyEvent::now(api_key_id, account_id, ip_address, ApiKeyEventType::Revoked { reason }, user_agent)
    }

    /// A new permissions update event, stamped now.
    pub fn new_permissions_update(api_key_id: String, account_id: String, previous_scope: String, new_scope: String,
        ip_address: Option<String>, user_agent: Option<String>) -> (r: Self)
        ensures
            r.api_key_id == api_key_id,
            r.account_id == account_id,
            time_ok(r.timestamp),
            r.ip_address == ip_address,
            r.event_type == (ApiKeyEventType::PermissionsUpdated { previous_scope, new_scope }),
            r.user_agent == user_agent,
    {
        ApiKeyEvent::now(api_key_id, account_id, ip_address, ApiKeyEventType::PermissionsUpdated { previous_scope, new_scope },
            user_agent)
    }

    /// A new expiration update event, stamped now.
    pub fn new_expiration_update(api_key_id: String, account_id: String, previous_expiration: Option<i64>,
        new_expiration: Option<i64>, ip_address: Option<String>, user_agent: Option<String>) -> (r: Self)
        ensures
            r.api_key_id == api_key_id,
            r.account_id == account_id,
            time_ok(r.timestamp),
            r.ip_address == ip_address,
            r.event_type == (ApiKeyEventType::ExpirationUpdated { previous_expiration, new_expiration }),
            r.user_agent == user_agent,
    {
        ApiKeyEvent::now(api_key_id, account_id, ip_address,
            ApiKeyEventType::ExpirationUpdated { previous_expiration, new_expiration }, user_agent)
    }

    /// A copy of the event.
    pub fn copy(&self) -> (r: Self)
        ensures
            r == *self,
    {
        ApiKeyEvent {
            api_key_id: self.api_key_id.clone(),
            account_id: self.account_id.clone(),
            timestamp: self.timestamp,
            ip_address: copy_opt(&self.ip_address),
            event_type: self.event_type.copy(),
            user_agent: copy_opt(&self.user_agent),
        }
    }
}

/// The events newest first: no event is older than one after it.
pub open spec fn newest_first(s: Seq<ApiKeyEvent>) -> bool {
    forall|i: int, j: int| 0 <= i < j < s.len() ==> #[trigger] s[i].timestamp >= #[trigger] s[j].timestamp
}

/// Inserts `e` into events kept newest first, after those as new as it.
fn insert_by_time(v: &mut Vec<ApiKeyEvent>, e: ApiKeyEvent)
    requires
        newest_first(old(v)@),
    ensures
        newest_first(final(v)@),
        final(v)@.to_multiset() == old(v)@.to_multiset().insert(e),
{
    let mut p: usize = 0;
    while p < v.len() && v[p].timestamp >= e.timestamp
        invariant
            p <= v@.len(),
            v@ == old(v)@,
            forall|j: int| 0 <= j < p ==> (#[trigger] v@[j]).timestamp >= e.timestamp,
        decreases v@.len() - p,
    {
        p += 1;
    }
    let ghost before = v@;
    let ghost ts = e.timestamp;
    v.insert(p, e);
    proof {
        assert(v@ == before.insert(p as int, e));
        assert forall|a: int, b: int| 0 <= a < b < v@.len() implies #[trigger] v@[a].timestamp >= #[trigger] v@[b].timestamp by {
            if b < p {
            } else if a < p && b == p {
            } else if a < p && b > p {
                assert(v@[b] == before[b - 1]);
            } else if a == p {
                assert(v@[b] == before[b - 1]);
                if p < before.len() {
                    assert(before[p as int].timestamp < ts);
                    if b - 1 > p {
                        assert(before[p as int].timestamp >= before[b - 1].timestamp);
                    }
                }
            } else {
                assert(v@[a] == before[a - 1] && v@[b] == before[b - 1]);
            }
        }
    }
}

/// `events` newest first; events of the same time keep their order.
pub fn sort_newest_first(events: Vec<ApiKeyEvent>) -> (r: Vec<ApiKeyEvent>)
    ensures
        newest_first(r@),
        r@.to_multiset() == events@.to_multiset(),
{
    let mut out: Vec<ApiKeyEvent> = Vec::new();
    let mut i: usize = 0;
    while i < events.len()
        invariant
            i <= events@.len(),
            newest_first(out@),
            out@.to_multiset() == events@.take(i as int).to_multiset(),
        decreases events@.len() - i,
    {
        let e = events[i].copy();
        insert_by_time(&mut out, e);
        proof {
            assert(events@.take(i + 1) == events@.take(i as int).push(events@[i as int]));
        }
        i += 1;
    }
    proof {
        assert(events@.take(i as int) == events@);
    }
    out
}

/// The page of `s` that starts at `offset` and holds at most `limit` events.
pub open spec fn spec_page(s: Seq<ApiKeyEvent>, offset: int, limit: int) -> Seq<ApiKeyEvent> {
    if offset < s.len() {
        s.subrange(offset, if offset + limit < s.len() { offset + limit } else { s.len() as int })
    } else {
        Seq::empty()
    }
}

/// The page of `events` that starts at `offset` (0 if not given) and holds
/// at most `limit` events (all if not given).
pub fn paginate(events: &Vec<ApiKeyEvent>, limit: Option<usize>, offset: Option<usize>) -> (r: Vec<ApiKeyEvent>)
    requires
        offset.unwrap_or(0) < events@.len() ==> offset.unwrap_or(0) + limit.unwrap_or(events@.len() as usize) <= usize::MAX,
    ensures
        r@ == spec_page(events@, offset.unwrap_or(0) as int, limit.unwrap_or(events@.len() as usize) as int),
{
    let offset = match offset {
        Some(o) => o,
        None => 0,
    };
    let limit = match limit {
        Some(l) => l,
        None => events.len(),
    };
    let mut out: Vec<ApiKeyEvent> = Vec::new();
    if offset < events.len() {
        let end = if offset + limit < events.len() { offset + limit } else { events.len() };
        let mut i: usize = offset;
        while i < end
            invariant
                offset <= i <= end,
                end <= events@.len(),
                out@ == events@.subrange(offset as int, i as int),
            decreases end - i,
        {
            out.push(events[i].copy());
            proof {
                assert(out@ =~= events@.subrange(offset as int, i + 1));
            }
            i += 1;
        }
    } else {
        proof {
            assert(out@ =~= Seq::<ApiKeyEvent>::empty());
        }
    }
    out
}

/// The events kept of each key, in the order of their keys.
pub open spec fn flatten_events(s: Seq<(String, Vec<ApiKeyEvent>)>) -> Seq<ApiKeyEvent>
    decreases s.len(),
{
    if s.len() == 0 {
        Seq::empty()
    } else {
        flatten_events(s.drop_last()) + s.last().1@
    }
}

/// The events of `s` of the account `account`, or all events if none is given.
pub open spec fn of_account(s: Seq<ApiKeyEvent>, account: Option<Seq<char>>) -> Seq<ApiKeyEvent> {
    match account {
        Some(a) => s.filter(|e: ApiKeyEvent| e.account_id@ == a),
        None => s,
    }
}

/// The events kept newest first after `events` gained `e`: the oldest one
/// goes when there are more than the limit.
pub open spec fn keep_recent(events: Seq<ApiKeyEvent>, e: ApiKeyEvent) -> Seq<ApiKeyEvent> {
    let s = events.push(e);
    if s.len() > MAX_EVENTS_PER_KEY { s.drop_first() } else { s }
}

/// The in-memory record of API key events, by key. Callers that share it
/// between tasks hold it behind a lock.
#[derive(Debug)]
pub struct ApiKeyAuditLog {
    events: StrMap<Vec<ApiKeyEvent>>,
}

impl ApiKeyAuditLog {
    /// The events kept of the key `api_key_id`, oldest first.
    pub closed spec fn spec_events(&self, api_key_id: Seq<char>) -> Seq<ApiKeyEvent> {
        match self.events.spec_get(api_key_id) {
            Some(v) => v@,
            None => Seq::empty(),
        }
    }

    /// All events kept, key by key in order of key ID, oldest first within a key.
    pub closed spec fn spec_all(&self) -> Seq<ApiKeyEvent> {
        flatten_events(self.events.spec_entries())
    }

    /// Every key keeps at most the limit of events, all of its own.
    #[verifier::type_invariant]
    closed spec fn inv(&self) -> bool {
        forall|k: Seq<char>| #[trigger] self.events.spec_get(k) is Some ==> {
            &&& self.events.spec_get(k).unwrap()@.len() <= MAX_EVENTS_PER_KEY
            &&& forall|i: int| 0 <= i < self.events.spec_get(k).unwrap()@.len()
                ==> (#[trigger] self.events.spec_get(k).unwrap()@[i]).api_key_id@ == k
        }
    }

    /// A key keeps at most the limit of events, all of its own.
    pub fn lemma_events_bounded(&self, api_key_id: &str)
        ensures
            self.spec_events(api_key_id@).len() <= MAX_EVENTS_PER_KEY,
            forall|i: int| 0 <= i < self.spec_events(api_key_id@).len()
                ==> (#[trigger] self.spec_events(api_key_id@)[i]).api_key_id@ == api_key_id@,
    {
        proof {
            use_type_invariant(self);
        }
    }

    /// Create a new, empty audit log.
    pub fn new() -> (r: Self)
        ensures
            forall|k: Seq<char>| #[trigger] r.spec_events(k).len() == 0,
    {
        ApiKeyAuditLog { events: StrMap::new() }
    }

    /// Record a new event under its key; beyond the limit, the key's oldest
    /// event goes.
    pub fn record(&mut self, event: ApiKeyEvent)
        ensures
            final(self).spec_events(event.api_key_id@) == keep_recent(old(self).spec_events(event.api_key_id@), event),
            forall|k: Seq<char>| k != event.api_key_id@ ==> #[trigger] final(self).spec_events(k) == old(self).spec_events(k),
    {
        proof {
            use_type_invariant(&*self);
        }
        let api_key_id = event.api_key_id.clone();
        let ghost k = api_key_id@;
        let mut events: StrMap<Vec<ApiKeyEvent>> = StrMap::new();
        std::mem::swap(&mut events, &mut self.events);
        let mut queue = match events.remove(api_key_id.as_str()) {
            Some(q) => q,
            None => Vec::new(),
        };
        let ghost q0 = queue@;
        queue.push(event);
        if queue.len() > MAX_EVENTS_PER_KEY {
            queue.remove(0);
        }
        proof {
            assert(queue@ =~= keep_recent(q0, event));
            assert forall|i: int| 0 <= i < queue@.len() implies (#[trigger] queue@[i]).api_key_id@ == k by {
                if q0.push(event).len() > MAX_EVENTS_PER_KEY {
                    assert(queue@[i] == q0.push(event)[i + 1]);
                } else {
                    assert(queue@[i] == q0.push(event)[i]);
                }
            }
        }
        events.insert(api_key_id, queue);
        self.events = events;
    }

    /// Get the events kept of a key, oldest first.
    pub fn get_events_for_key(&self, api_key_id: &str) -> (r: Vec<ApiKeyEvent>)
        ensures
            r@ == self.spec_events(api_key_id@),
    {
        match self.events.get(api_key_id) {
            Some(queue) => {
                let mut out: Vec<ApiKeyEvent> = Vec::new();
                let mut i: usize = 0;
                while i < queue.len()
                    invariant
                        i <= queue@.len(),
                        out@ == queue@.take(i as int),
                    decreases queue@.len() - i,
                {
                    out.push(queue[i].copy());
                    proof {
                        assert(out@ =~= queue@.take(i + 1));
                    }
                    i += 1;
                }
                proof {
                    assert(queue@.take(i as int) =~= queue@);
                }
                out
            },
            None => {
                let out: Vec<ApiKeyEvent> = Vec::new();
                proof {
                    assert(out@ =~= Seq::<ApiKeyEvent>::empty());
                }
                out
            },
        }
    }

    /// The events kept of all keys (of the account `account_id` if given),
    /// key by key in order of key ID.
    fn collect(&self, account_id: Option<&str>) -> (r: Vec<ApiKeyEvent>)
        ensures
            r@ == of_account(self.spec_all(), crate::api::opt_seq(account_id)),
    {
        let entries = self.events.entries();
        let ghost all = flatten_events(entries@);
        let mut out: Vec<ApiKeyEvent> = Vec::new();
        let mut i: usize = 0;
        while i < entries.len()
            invariant
                i <= entries@.len(),
                entries@ == self.events.spec_entries(),
                out@ == of_account(flatten_events(entries@.take(i as int)), crate::api::opt_seq(account_id)),
            decreases entries@.len() - i,
        {
            let queue = &entries[i].1;
            let ghost done = flatten_events(entries@.take(i as int));
            proof {
                assert(entries@.take(i + 1).drop_last() =~= entries@.take(i as int));
            }
            let mut j: usize = 0;
            while j < queue.len()
                invariant
                    j <= queue@.len(),
                    *queue == entries@[i as int].1,
                    out@ == of_account(done + queue@.take(j as int), crate::api::opt_seq(account_id)),
                decreases queue@.len() - j,
            {
                let ghost prefix = done + queue@.take(j as int);
                proof {
                    assert(done + queue@.take(j + 1) =~= prefix.push(queue@[j as int]));
                    reveal(Seq::filter);
                    assert(prefix.push(queue@[j as int]).drop_last() =~= prefix);
                }
                let keep = match account_id {
                    Some(a) => str_eq(queue[j].account_id.as_str(), a),
                    None => true,
                };
                if keep {
                    out.push(queue[j].copy());
                }
                j += 1;
            }
            proof {
                assert(queue@.take(j as int) =~= queue@);
            }
            i += 1;
        }
        proof {
            assert(entries@.take(i as int) =~= entries@);
        }
        out
    }

    /// Get all events of an account's keys, newest first.
    pub fn get_events_for_account(&self, account_id: &str) -> (r: Vec<ApiKeyEvent>)
        ensures
            newest_first(r@),
            r@.to_multiset() == of_account(self.spec_all(), Some(account_id@)).to_multiset(),
    {
        let events = self.collect(Some(account_id));
        sort_newest_first(events)
    }

    /// Get all events (of the account `account_id` if given), newest first,
    /// the page that starts at `offset` (0 if not given) and holds at most
    /// `limit` events (all if not given).
    pub fn get_all_events(&self, limit: Option<usize>, offset: Option<usize>, account_id: Option<&str>) -> (r: Vec<ApiKeyEvent>)
        requires
            offset.unwrap_or(0) < of_account(self.spec_all(), crate::api::opt_seq(account_id)).len()
                ==> offset.unwrap_or(0) + limit.unwrap_or(
                    of_account(self.spec_all(), crate::api::opt_seq(account_id)).len() as usize) <= usize::MAX,
        ensures
            exists|sorted: Seq<ApiKeyEvent>| {
                &&& newest_first(sorted)
                &&& #[trigger] sorted.to_multiset() == of_account(self.spec_all(), crate::api::opt_seq(account_id)).to_multiset()
                &&& r@ == spec_page(sorted, offset.unwrap_or(0) as int, limit.unwrap_or(sorted.len() as usize) as int)
            },
    {
        let events = self.collect(account_id);
        let sorted = sort_newest_first(events);
        proof {
            assert(sorted@.len() == sorted@.to_multiset().len());
            assert(of_account(self.spec_all(), crate::api::opt_seq(account_id)).len()
                == of_account(self.spec_all(), crate::api::opt_seq(account_id)).to_multiset().len());
        }
        paginate(&sorted, limit, offset)
    }

    /// The number of kept usage events of a key.
    pub fn get_usage_count(&self, api_key_id: &str) -> (r: usize)
        ensures
            r == self.spec_events(api_key_id@).filter(|e: ApiKeyEvent| e.event_type is Used).len(),
    {
        match self.events.get(api_key_id) {
            Some(queue) => {
                let mut count: usize = 0;
                let mut i: usize = 0;
                while i < queue.len()
                    invariant
                        i <= queue@.len(),
                        count == queue@.take(i as int).filter(|e: ApiKeyEvent| e.event_type is Used).len(),
                        count <= i,
                    decreases queue@.len() - i,
                {
                    proof {
                        assert(queue@.take(i + 1).drop_last() =~= queue@.take(i as int));
                        reveal(Seq::filter);
                    }
                    match queue[i].event_type {
                        ApiKeyEventType::Used { .. } => {
                            count = count + 1;
                        },
                        _ => {},
                    }
                    i += 1;
                }
                proof {
                    assert(queue@.take(i as int) =~= queue@);
                }
                count
            },
            None => {
                proof {
                    assert(Seq::<ApiKeyEvent>::empty().filter(|e: ApiKeyEvent| e.event_type is Used) =~= Seq::<ApiKeyEvent>::empty());
                }
                0
            },
        }
    }
}

impl Default for ApiKeyAuditLog {
    fn default() -> (r: Self)
        ensures
            forall|k: Seq<char>| #[trigger] r.spec_events(k).len() == 0,
    {
        Self::new()
    }
}

} // verus!
