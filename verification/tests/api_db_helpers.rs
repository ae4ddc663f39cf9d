use form_state::accounts::{Account, AuthorizationLevel};
use form_state::api::{devnet_reply, first_forwarded, gossip_op_kind, healthy_response, is_localhost_request, is_public_endpoint, ApplyOutcome, GossipOpKind, HealthStatus};
use form_state::api_keys::audit::{ApiKeyEvent};
use form_state::db::{clock_key, deferred_key, entry_key, entry_name, is_deferred_key, starts_with};
use form_state::helpers::account::{may_create_account, may_update_account, same_address, transfer_check, transfer_instance, TransferRefusal};
use form_state::helpers::agent::{agent_update_check, is_admin_address, AgentUpdateRefusal};
use form_state::helpers::agent_gateway::{run_task_path, task_eligibility, task_endpoint, usage_payload};
use form_state::helpers::agent_request::{HireAgentRequest, MemoryType};
use form_state::helpers::agent_response::{ApiError, TaskStatus};
use form_state::helpers::api_key_handlers::{audit_page, create_key_check_at, PaginationParams};
use form_state::kv::StringMap;
use form_state::text::{eq_ignore_ascii_case, trim, u64_to_decimal};

#[test]
fn public_endpoints() {
    assert!(is_public_endpoint("/agents"));
    assert!(is_public_endpoint("/agent/123"));
    assert!(is_public_endpoint("/node/list/extra"));
    assert!(!is_public_endpoint("/billing"));
    assert!(!is_public_endpoint("/node"));
}

#[test]
fn localhost_detection() {
    assert!(is_localhost_request(true, None, None));
    assert!(is_localhost_request(false, Some(" 127.0.0.1, 10.0.0.1"), None));
    assert!(is_localhost_request(false, Some("localhost.example"), None));
    assert!(!is_localhost_request(false, Some("10.0.0.1, 127.0.0.1"), None));
    assert!(is_localhost_request(false, None, Some("localhost:3004")));
    assert!(is_localhost_request(false, None, Some("localhost")));
    assert!(!is_localhost_request(false, None, Some("localhostx")));
    assert!(!is_localhost_request(false, None, Some("example.com")));
    assert_eq!(first_forwarded("\t1.2.3.4 ,5.6.7.8"), "1.2.3.4");
}

#[test]
fn gossip_replies() {
    assert_eq!(gossip_op_kind("NodeOp"), Some(GossipOpKind::NodeOp));
    assert_eq!(gossip_op_kind("nodeop"), None);
    assert_eq!(devnet_reply(Some(GossipOpKind::PeerOp), ApplyOutcome::Applied), (200, "success", "PeerOp applied.".to_string()));
    assert_eq!(devnet_reply(Some(GossipOpKind::DnsOp), ApplyOutcome::PersistFailed).2, "Failed to persist state after applying DnsOp");
    assert_eq!(devnet_reply(Some(GossipOpKind::ModelOp), ApplyOutcome::ParseFailed), (400, "error", "Failed to deserialize ModelOp".to_string()));
    assert_eq!(devnet_reply(None, ApplyOutcome::Applied), (400, "error", "Unknown op_type".to_string()));
    let h = healthy_response(Some("1.0".to_string()));
    assert!(matches!(h.status, HealthStatus::Healthy));
    assert_eq!(h.uptime, None);
}

#[test]
fn store_keys() {
    assert!(starts_with(b"abc/def", b"abc/"));
    assert!(!starts_with(b"ab", b"abc"));
    assert!(starts_with(b"x", b""));
    assert_eq!(clock_key("m"), "m/clock");
    assert_eq!(entry_key("m", "k1"), "m/entries/k1");
    assert_eq!(deferred_key("m", 12), "m/deferred/12");
    assert_eq!(entry_name("m/entries/k1", "m"), Some("k1".to_string()));
    assert_eq!(entry_name("m/clock", "m"), None);
    assert_eq!(entry_name("n/entries/k1", "m"), None);
    assert!(is_deferred_key("m/deferred/0", "m"));
    assert!(!is_deferred_key("m/entries/0", "m"));
}

#[test]
fn account_permissions() {
    assert!(same_address("0xABC", "0xabc"));
    assert!(may_create_account("abc", "0xABC"));
    assert!(may_create_account("abc", "abc"));
    assert!(!may_create_account("0xabc", "0xabc"));
    assert!(!may_create_account("0xabc", "0xdef"));
    assert!(may_update_account(None, true, "0xabc"));
    assert!(!may_update_account(None, false, "0xabc"));
    assert!(may_update_account(Some("0xAbC"), false, "0xabc"));
    assert!(!may_update_account(Some("0xdef"), true, "0xabc"));
}

#[test]
fn instance_transfer() {
    let mut from = Account::new("0xa".to_string());
    let mut to = Account::new("0xb".to_string());
    from.add_owned_instance("i1".to_string());
    let owners = vec![Account::new("0xa".to_string())];
    assert!(matches!(transfer_check("0xB", "0xa", "0xb", "i1", Some(&from), true, true, &owners), Some(TransferRefusal::NotYourInstance)));
    assert!(matches!(transfer_check("0xa", "0xa", "0xb", "i1", None, true, true, &owners), Some(TransferRefusal::SourceMissing(ref a)) if a == "0xa"));
    assert!(matches!(transfer_check("0xa", "0xa", "0xb", "i1", Some(&from), false, true, &owners), Some(TransferRefusal::DestinationMissing(_))));
    assert!(matches!(transfer_check("0xa", "0xa", "0xb", "i1", Some(&from), true, false, &owners), Some(TransferRefusal::InstanceMissing(_))));
    assert!(matches!(transfer_check("0xa", "0xa", "0xb", "i1", Some(&from), true, true, &vec![]), Some(TransferRefusal::NotOwnedBySource(_))));
    assert!(transfer_check("0xA", "0xa", "0xb", "i1", Some(&from), true, true, &owners).is_none());
    let (status, msg) = TransferRefusal::InstanceMissing("i9".to_string()).response();
    assert_eq!((status, msg.as_str()), (404, "Instance with ID i9 does not exist"));
    transfer_instance(&mut from, &mut to, "i1");
    assert_eq!(from.get_authorization_level("i1"), None);
    assert_eq!(to.get_authorization_level("i1"), Some(AuthorizationLevel::Owner));
}

#[test]
fn agent_permissions() {
    assert!(is_admin_address("0xADMIN"));
    assert!(is_admin_address("0x000admin42"));
    assert!(!is_admin_address("0x000ADMIN42"));
    assert_eq!(agent_update_check(true, None, false, "0xa", "0xb"), None);
    assert_eq!(agent_update_check(false, None, false, "0xa", "0xa"), Some(AgentUpdateRefusal::NotPermitted));
    assert_eq!(agent_update_check(false, Some("A"), false, "0xa", "a"), None);
    assert_eq!(agent_update_check(false, Some("a"), false, "0xa", "0xb"), Some(AgentUpdateRefusal::OwnerChange));
    assert_eq!(agent_update_check(false, Some("z"), true, "0xa", "0xb"), None);
    assert_eq!(AgentUpdateRefusal::OwnerChange.message(), "Cannot change agent owner_id via update. Use transfer operation.");
}

#[test]
fn agent_requests() {
    assert_eq!(MemoryType::parse("LanceDB"), Ok(MemoryType::LanceDB));
    assert_eq!(MemoryType::parse("none"), Ok(MemoryType::NoMemory));
    assert_eq!(MemoryType::parse("Custom:MyStore"), Ok(MemoryType::Custom("mystore".to_string())));
    assert_eq!(MemoryType::parse("redis"), Err("Unknown memory type: redis".to_string()));
    assert_eq!(MemoryType::PineconeVectorDB.as_text(), "pinecone");
    assert_eq!(MemoryType::Custom("x".to_string()).as_text(), "custom:x");
    for m in [MemoryType::NoMemory, MemoryType::Conversation, MemoryType::FormationPersistent, MemoryType::ChromaDB, MemoryType::Qdrant] {
        assert_eq!(MemoryType::parse(&m.as_text()), Ok(m));
    }
    let mut md = StringMap::new();
    md.insert("source".to_string(), "web".to_string());
    let r = HireAgentRequest::new("jwt".to_string()).with_metadata(md);
    assert_eq!(r.jwt, "jwt");
    assert_eq!(r.metadata.unwrap().get("source"), Some("web"));
    assert_eq!(TaskStatus::TimedOut.as_text(), "timed_out");
    let e = ApiError::new("CODE", "msg", 418).with_path("/p").with_details("{}".to_string()).with_request_id("rid");
    assert_eq!((e.code.as_str(), e.message.as_str(), e.status_code, e.path.as_str(), e.request_id.as_str()), ("CODE", "msg", 418, "/p", "rid"));
    assert_eq!(ApiError::new("C", "m", 500).request_id.len(), 36);
}

#[test]
fn gateway_decisions() {
    assert_eq!(run_task_path("a1"), "/agents/a1/run_task");
    let mut a = Account::new("0xabc".to_string());
    assert_eq!(task_eligibility(&a, true, "0xABC", "0xabc", "a1"), None);
    assert_eq!(task_eligibility(&a, true, "0xdef", "0xabc", "a1"), Some("Agent 'a1' is private and you are not the owner or authorized.".to_string()));
    a.credits = 0;
    assert_eq!(task_eligibility(&a, false, "x", "y", "a1"), Some("Account has insufficient credits and no active/trialing subscription.".to_string()));
    let mut md = StringMap::new();
    assert_eq!(task_endpoint(&md, "a1"), ("/default_task".to_string(), 8000, "a1".to_string()));
    md.insert("task_endpoint_port".to_string(), "9001".to_string());
    md.insert("task_endpoint_path".to_string(), "/run".to_string());
    md.insert("build_id".to_string(), "b7".to_string());
    assert_eq!(task_endpoint(&md, "a1"), ("/run".to_string(), 9001, "b7".to_string()));
    md.insert("task_endpoint_port".to_string(), "70000".to_string());
    assert_eq!(task_endpoint(&md, "a1").1, 8000);
    assert_eq!(usage_payload("FINAL_USAGE_INFO:{\"a\":1}"), Some("{\"a\":1}".to_string()));
    assert_eq!(usage_payload("FINAL_USAGE_INFO:FINAL_USAGE_INFO:{}"), Some("{}".to_string()));
    assert_eq!(usage_payload("data"), None);
}

#[test]
fn key_handler_decisions() {
    let a = Account::new("0xabc".to_string());
    assert_eq!(create_key_check_at(&a, "", 0), Some((400, "API key name cannot be empty".to_string())));
    assert_eq!(create_key_check_at(&a, "k", 0), None);
    let events: Vec<ApiKeyEvent> = (0..5).map(|i| {
        let mut e = ApiKeyEvent::new_creation("k".to_string(), "a".to_string(), None, None);
        e.timestamp = i;
        e
    }).collect();
    let (page, total, more) = audit_page(&events, PaginationParams { limit: Some(2), offset: Some(1) });
    assert_eq!(page.iter().map(|e| e.timestamp).collect::<Vec<_>>(), vec![1, 2]);
    assert_eq!(total, 5);
    assert!(more);
    let (page, _, more) = audit_page(&events, PaginationParams { limit: None, offset: None });
    assert_eq!(page.len(), 5);
    assert!(!more);
}

#[test]
fn text_helpers() {
    assert_eq!(trim("\u{3000} a b \n"), "a b");
    assert_eq!(trim("   "), "");
    assert!(eq_ignore_ascii_case("AbC", "aBc"));
    assert!(!eq_ignore_ascii_case("abc", "abd"));
    assert_eq!(u64_to_decimal(0), "0");
    assert_eq!(u64_to_decimal(18446744073709551615), "18446744073709551615");
}
