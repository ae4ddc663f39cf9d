//! The decisions of the HTTP API: which endpoints are public, which requests
//! come from this machine, the health report, and the answers to operations
//! gossiped directly between development nodes.

use vstd::prelude::*;
use crate::text::{
    seq_starts_with, starts_with, str_eq, split_spec, trim_spec, trim, first_piece, concat, owned,
};

verus! {

/// The health of the service.
#[derive(Debug, Clone)]
pub enum HealthStatus {
    Healthy,
    Degraded { reason: String },
    Unhealthy { reason: String },
}

/// The answer to a health check.
#[derive(Debug, Clone)]
pub struct HealthResponse {
    pub status: HealthStatus,
    pub version: Option<String>,
    pub uptime: Option<u64>,
}

/// The health report of a running service of version `version`: healthy,
/// with no uptime figure.
pub fn healthy_response(version: Option<String>) -> (r: HealthResponse)
    ensures
        r.status is Healthy,
        r.version == version,
        r.uptime is None,
{
    HealthResponse { status: HealthStatus::Healthy, version, uptime: None }
}

/// The filters of a task listing.
#[derive(Debug, Clone)]
pub struct ListTasksQuery {
    pub task_type: Option<String>,
    pub status: Option<String>,
    pub assigned_to_node_id: Option<String>,
    pub submitted_by: Option<String>,
}

/// The path prefixes that are safe for public access.
pub open spec fn public_prefixes() -> Seq<Seq<char>> {
    seq![
        "/agents"@, "/agents/"@, "/agent/"@, "/instances"@, "/instance/list"@, "/instance/"@, "/models"@,
        "/models/"@, "/model/"@, "/accounts"@, "/nodes"@, "/node/list"@,
    ]
}

/// A path is public when it starts with one of the public prefixes.
pub open spec fn spec_is_public(path: Seq<char>) -> bool {
    exists|i: int| 0 <= i < public_prefixes().len() && seq_starts_with(path, #[trigger] public_prefixes()[i])
}

/// Whether a path is for a public endpoint: it starts with one of the
/// agent, instance, model, account or node listing prefixes.
pub fn is_public_endpoint(path: &str) -> (r: bool)
    ensures
        r == spec_is_public(path@),
{
    let prefixes: [&str; 12] = [
        "/agents", "/agents/", "/agent/", "/instances", "/instance/list", "/instance/", "/models", "/models/",
        "/model/", "/accounts", "/nodes", "/node/list",
    ];
    proof {
        assert(prefixes@.map_values(|p: &str| p@) =~= public_prefixes());
    }
    let mut i: usize = 0;
    while i < 12
        invariant
            i <= 12,
            prefixes@.map_values(|p: &str| p@) == public_prefixes(),
            forall|j: int| 0 <= j < i ==> !seq_starts_with(path@, #[trigger] public_prefixes()[j]),
        decreases 12 - i,
    {
        proof {
            assert(prefixes@.map_values(|p: &str| p@)[i as int] == prefixes@[i as int]@);
        }
        if starts_with(path, prefixes[i]) {
            return true;
        }
        i += 1;
    }
    false
}

/// The first address of an `X-Forwarded-For` value, trimmed.
pub open spec fn spec_first_forwarded(value: Seq<char>) -> Seq<char> {
    trim_spec(split_spec(value, ',')[0])
}

/// The first address of an `X-Forwarded-For` value (a comma-separated
/// list), without surrounding white space.
pub fn first_forwarded(value: &str) -> (r: String)
    ensures
        r@ == spec_first_forwarded(value@),
{
    let first = first_piece(value, ',');
    trim(first.as_str())
}

/// Whether a request comes from this machine: its connection is from a
/// loopback address, its first forwarded address is a loopback one or
/// starts with `localhost`, or its host is localhost.
pub open spec fn spec_is_localhost(conn_loopback: bool, forwarded_for: Option<Seq<char>>, host: Option<Seq<char>>) -> bool {
    ||| conn_loopback
    ||| match forwarded_for {
        Some(f) => {
            let first = spec_first_forwarded(f);
            first == "127.0.0.1"@ || first == "::1"@ || seq_starts_with(first, "localhost"@)
        },
        None => false,
    }
    ||| match host {
        Some(h) => seq_starts_with(h, "localhost:"@) || h == "localhost"@ || seq_starts_with(h, "127.0.0.1"@)
            || seq_starts_with(h, "::1"@),
        None => false,
    }
}

/// The view of an optional string slice.
pub open spec fn opt_seq(o: Option<&str>) -> Option<Seq<char>> {
    match o {
        Some(s) => Some(s@),
        None => None,
    }
}

/// Decides whether a request comes from this machine, from whether its
/// connection's address is a loopback one and from its `X-Forwarded-For`
/// and `Host` headers (absent where missing or not text).
pub fn is_localhost_request(conn_loopback: bool, forwarded_for: Option<&str>, host: Option<&str>) -> (r: bool)
    ensures
        r == spec_is_localhost(conn_loopback, opt_seq(forwarded_for), opt_seq(host)),
{
    if conn_loopback {
        return true;
    }
    if let Some(addr) = forwarded_for {
        let first_ip = first_forwarded(addr);
        if str_eq(first_ip.as_str(), "127.0.0.1") || str_eq(first_ip.as_str(), "::1")
            || starts_with(first_ip.as_str(), "localhost") {
            return true;
        }
    }
    if let Some(host_str) = host {
        if starts_with(host_str, "localhost:") || str_eq(host_str, "localhost") || starts_with(host_str, "127.0.0.1")
            || starts_with(host_str, "::1") {
            return true;
        }
    }
    false
}

/// The kinds of state operation that development nodes gossip directly.
#[derive(Debug, Clone, Copy, PartialEq, Eq, Structural)]
pub enum GossipOpKind {
    PeerOp,
    NodeOp,
    AccountOp,
    CidrOp,
    AssocOp,
    DnsOp,
    InstanceOp,
    AgentOp,
    ModelOp,
}

/// The name of a kind, as it is sent.
pub open spec fn spec_gossip_op_name(k: GossipOpKind) -> Seq<char> {
    match k {
        GossipOpKind::PeerOp => "PeerOp"@,
        GossipOpKind::NodeOp => "NodeOp"@,
        GossipOpKind::AccountOp => "AccountOp"@,
        GossipOpKind::CidrOp => "CidrOp"@,
        GossipOpKind::AssocOp => "AssocOp"@,
        GossipOpKind::DnsOp => "DnsOp"@,
        GossipOpKind::InstanceOp => "InstanceOp"@,
        GossipOpKind::AgentOp => "AgentOp"@,
        GossipOpKind::ModelOp => "ModelOp"@,
    }
}

/// The name of a kind, as it is sent.
pub fn gossip_op_name(k: GossipOpKind) -> (r: &'static str)
    ensures
        r@ == spec_gossip_op_name(k),
{
    match k {
        GossipOpKind::PeerOp => "PeerOp",
        GossipOpKind::NodeOp => "NodeOp",
        GossipOpKind::AccountOp => "AccountOp",
        GossipOpKind::CidrOp => "CidrOp",
        GossipOpKind::AssocOp => "AssocOp",
        GossipOpKind::DnsOp => "DnsOp",
        GossipOpKind::InstanceOp => "InstanceOp",
        GossipOpKind::AgentOp => "AgentOp",
        GossipOpKind::ModelOp => "ModelOp",
    }
}

/// The kind named `op_type`, if any.
pub fn gossip_op_kind(op_type: &str) -> (r: Option<GossipOpKind>)
    ensures
        match r {
            Some(k) => spec_gossip_op_name(k) == op_type@,
            None => forall|k: GossipOpKind| spec_gossip_op_name(k) != op_type@,
        },
{
    if str_eq(op_type, "PeerOp") {
        Some(GossipOpKind::PeerOp)
    } else if str_eq(op_type, "NodeOp") {
        Some(GossipOpKind::NodeOp)
    } else if str_eq(op_type, "AccountOp") {
        Some(GossipOpKind::AccountOp)
    } else if str_eq(op_type, "CidrOp") {
        Some(GossipOpKind::CidrOp)
    } else if str_eq(op_type, "AssocOp") {
        Some(GossipOpKind::AssocOp)
    } else if str_eq(op_type, "DnsOp") {
        Some(GossipOpKind::DnsOp)
    } else if str_eq(op_type, "InstanceOp") {
        Some(GossipOpKind::InstanceOp)
    } else if str_eq(op_type, "AgentOp") {
        Some(GossipOpKind::AgentOp)
    } else if str_eq(op_type, "ModelOp") {
        Some(GossipOpKind::ModelOp)
    } else {
        None
    }
}

/// What became of a gossiped operation.
#[derive(Debug, Clone, Copy, PartialEq, Eq, Structural)]
pub enum ApplyOutcome {
    /// It was applied and the state was persisted
    Applied,
    /// It was applied but persisting the state failed
    PersistFailed,
    /// It could not be deserialized
    ParseFailed,
}

/// The answer (HTTP status, status word, message) to a gossiped operation
/// of `kind` (`None`: an unknown kind) with the given outcome.
pub open spec fn spec_devnet_reply(kind: Option<GossipOpKind>, outcome: ApplyOutcome) -> (u16, Seq<char>, Seq<char>) {
    match kind {
        None => (400, "error"@, "Unknown op_type"@),
        Some(k) => match outcome {
            ApplyOutcome::Applied => (200, "success"@, spec_gossip_op_name(k) + " applied."@),
            ApplyOutcome::PersistFailed => (500, "error"@, "Failed to persist state after applying "@ + spec_gossip_op_name(k)),
            ApplyOutcome::ParseFailed => (400, "error"@, "Failed to deserialize "@ + spec_gossip_op_name(k)),
        },
    }
}

/// The answer to a gossiped operation of `kind` with the given outcome.
pub fn devnet_reply(kind: Option<GossipOpKind>, outcome: ApplyOutcome) -> (r: (u16, &'static str, String))
    ensures
        (r.0, r.1@, r.2@) == spec_devnet_reply(kind, outcome),
{
    match kind {
        None => (400, "error", owned("Unknown op_type")),
        Some(k) => match outcome {
            ApplyOutcome::Applied => (200, "success", concat(gossip_op_name(k), " applied.")),
            ApplyOutcome::PersistFailed => (500, "error", concat("Failed to persist state after applying ", gossip_op_name(k))),
            ApplyOutcome::ParseFailed => (400, "error", concat("Failed to deserialize ", gossip_op_name(k))),
        },
    }
}

} // verus!
