use didcomm_demo::api::{
    api_error, body_is_blank, fetch_lowered, fetch_messages, fetched_response, flow_failure,
    flow_summary, get_identities, packet_stream, reset_demo, send_message, send_message_response,
    send_ping, send_ping_response, stream_item, ApiError, PingRequest, SendMessageRequest,
    StoredMessage,
};
use didcomm_demo::flows::send_message::{SendAction, SendReply};
use didcomm_demo::flows::trust_ping::{PingAction, PingReply, PingSent};
use didcomm_demo::flows::FlowError;
use didcomm_demo::identity::IdentityInfo;
use didcomm_demo::json::{build_object1, build_object2, parse_or, parse_or_raw};
use didcomm_demo::mediator::{
    initialise, plan_access_lists, AccessListMode, AppState, Party,
};
use didcomm_demo::packet_logger::{
    create_packet_channel, subscribe, Delivery, PacketDirection, PacketEvent, PacketStep,
};
use didcomm_demo::text::copy_opt_text;
use serde_json::Value;

fn state_for_api() -> AppState {
    initialise(
        "did:example:alice",
        Some("did:example:mediator-a".to_string()),
        "did:example:bob",
        None,
        create_packet_channel(),
    )
}

fn parsed(source: &str) -> Value {
    serde_json::from_str(source).unwrap()
}

fn send_request(from: &str, to: &str, body: &str) -> SendMessageRequest {
    SendMessageRequest { from: from.to_string(), to: to.to_string(), body: body.to_string() }
}

#[test]
fn initialise_builds_the_identities() {
    let state = state_for_api();
    assert_eq!(state.alice_info.alias, "Alice");
    assert_eq!(state.alice_info.did, "did:example:alice");
    assert_eq!(state.alice_info.mediator_did, Some("did:example:mediator-a".to_string()));
    assert_eq!(state.alice_mediator_did, "did:example:mediator-a");
    assert_eq!(state.bob_info.alias, "Bob");
    assert_eq!(state.bob_info.did, "did:example:bob");
    assert_eq!(state.bob_info.mediator_did, Some(String::new()));
    assert_eq!(state.bob_mediator_did, "");
    assert_eq!(state.did(Party::Alice), "did:example:alice");
    assert_eq!(state.did(Party::Bob), "did:example:bob");
    assert_eq!(state.mediator_did(Party::Alice), "did:example:mediator-a");
    assert_eq!(state.mediator_did(Party::Bob), "");
}

#[test]
fn from_profile_lists_the_four_key_types() {
    let info = IdentityInfo::from_profile("Alice", "did:peer:2.abc", Some("did:web:mediator"));
    assert_eq!(info.alias, "Alice");
    assert_eq!(info.did, "did:peer:2.abc");
    assert_eq!(info.mediator_did, Some("did:web:mediator".to_string()));
    assert_eq!(info.key_types, vec!["P-256", "Ed25519", "X25519", "secp256k1"]);
    let bare = IdentityInfo::from_profile("Bob", "did:peer:2.def", None);
    assert_eq!(bare.mediator_did, None);
    assert_eq!(bare.key_types.len(), 4);
}

#[test]
fn identity_clone_and_wire_format() {
    let info = IdentityInfo::from_profile("Alice", "did:a", Some("did:m"));
    let copy = info.clone();
    assert_eq!(copy.alias, info.alias);
    assert_eq!(copy.did, info.did);
    assert_eq!(copy.mediator_did, info.mediator_did);
    assert_eq!(copy.key_types, info.key_types);
    assert_eq!(
        info.to_json(),
        parsed(
            "{\"alias\":\"Alice\",\"did\":\"did:a\",\"mediator_did\":\"did:m\",\
             \"key_types\":[\"P-256\",\"Ed25519\",\"X25519\",\"secp256k1\"]}"
        )
    );
    let bare = IdentityInfo::from_profile("Bob", "did:b", None);
    assert_eq!(bare.to_json()["mediator_did"], Value::Null);
}

#[test]
fn get_identities_returns_both_parties() {
    let state = state_for_api();
    let response = get_identities(&state);
    assert_eq!(response.alice.alias, "Alice");
    assert_eq!(response.alice.did, "did:example:alice");
    assert_eq!(response.bob.alias, "Bob");
    assert_eq!(response.bob.did, "did:example:bob");
    let doc = response.to_json();
    assert_eq!(doc["alice"], state.alice_info.to_json());
    assert_eq!(doc["bob"], state.bob_info.to_json());
    assert_eq!(doc.as_object().unwrap().len(), 2);
}

#[test]
fn access_lists_are_planned_per_mode() {
    let both = plan_access_lists(AccessListMode::ExplicitAllow, AccessListMode::ExplicitAllow);
    assert!(both.alice_adds_bob && both.bob_adds_alice);
    let one = plan_access_lists(AccessListMode::ExplicitAllow, AccessListMode::ExplicitDeny);
    assert!(one.alice_adds_bob && !one.bob_adds_alice);
    let other = plan_access_lists(AccessListMode::ExplicitDeny, AccessListMode::ExplicitAllow);
    assert!(!other.alice_adds_bob && other.bob_adds_alice);
    let none = plan_access_lists(AccessListMode::ExplicitDeny, AccessListMode::ExplicitDeny);
    assert!(!none.alice_adds_bob && !none.bob_adds_alice);
}

#[test]
fn party_names_are_lower_case() {
    assert_eq!(Party::from_lowered("alice"), Some(Party::Alice));
    assert_eq!(Party::from_lowered("bob"), Some(Party::Bob));
    assert_eq!(Party::from_lowered("Alice"), None);
    assert_eq!(Party::from_lowered("mediator"), None);
    assert_eq!(Party::from_lowered(""), None);
}

#[test]
fn json_builders_are_exact() {
    assert_eq!(build_object1("k", Value::from(1u64)), parsed("{\"k\":1}"));
    assert_eq!(
        build_object2("a", Value::Bool(true), "b", Value::Null),
        parsed("{\"a\":true,\"b\":null}")
    );
    assert_eq!(
        build_object2("a", Value::from(1u64), "a", Value::from(2u64)),
        parsed("{\"a\":2}")
    );
    assert_eq!(parse_or_raw("[1, 2]"), parsed("[1,2]"));
    assert_eq!(parse_or_raw("not json"), parsed("{\"raw\":\"not json\"}"));
    assert_eq!(parse_or(&Some("{\"x\":1}".to_string()), Value::Null), parsed("{\"x\":1}"));
    assert_eq!(parse_or(&Some("{".to_string()), Value::from(3u64)), Value::from(3u64));
    assert_eq!(parse_or(&None, Value::from(4u64)), Value::from(4u64));
    assert_eq!(copy_opt_text(&Some("a".to_string())), Some("a".to_string()));
    assert_eq!(copy_opt_text(&None), None);
}

#[test]
fn api_error_holds_message_and_step() {
    let plain = api_error(400, "body cannot be empty", None);
    assert_eq!(plain.status, 400);
    assert_eq!(plain.body, parsed("{\"error\":\"body cannot be empty\"}"));
    let stepped = api_error(500, "boom", Some("send_message"));
    assert_eq!(stepped.status, 500);
    assert_eq!(stepped.body, parsed("{\"error\":\"boom\",\"step\":\"send_message\"}"));
    let body = ApiError { error: "e".to_string(), step: Some("s".to_string()) };
    assert_eq!(body.to_json(), parsed("{\"error\":\"e\",\"step\":\"s\"}"));
}

#[test]
fn blank_means_empty_after_trimming() {
    assert!(body_is_blank(""));
    assert!(!body_is_blank("x"));
    assert!(!body_is_blank(" "));
}

#[test]
fn send_with_empty_body_is_rejected_before_anything_is_published() {
    let state = state_for_api();
    let mut observer = subscribe(&state.packet_tx);
    for body in ["", "   ", "\n\t \r\n"] {
        let response = send_message(&state, &send_request("alice", "bob", body)).unwrap_err();
        assert_eq!(response.status, 400);
        assert_eq!(response.body, parsed("{\"error\":\"body cannot be empty\"}"));
    }
    let unknown = send_message(&state, &send_request("nobody", "bob", "  ")).unwrap_err();
    assert_eq!(unknown.body, parsed("{\"error\":\"body cannot be empty\"}"));
    assert!(matches!(observer.poll(), Delivery::Idle));
}

#[test]
fn send_with_unknown_alias_is_the_requests_fault() {
    let state = state_for_api();
    let mut observer = subscribe(&state.packet_tx);
    let sender = send_message(&state, &send_request("Carol", "bob", "hi")).unwrap_err();
    assert_eq!(sender.status, 400);
    assert_eq!(sender.body, parsed("{\"error\":\"Unknown sender: Carol\"}"));
    let recipient = send_message(&state, &send_request("alice", "Dave", "hi")).unwrap_err();
    assert_eq!(recipient.status, 400);
    assert_eq!(recipient.body, parsed("{\"error\":\"Unknown recipient: Dave\"}"));
    assert!(matches!(observer.poll(), Delivery::Idle));
}

#[test]
fn send_request_starts_the_flow() {
    let state = state_for_api();
    let (flow, action) = send_message(&state, &send_request("Alice", "BOB", " hi ")).unwrap();
    assert_eq!(flow.sender(), Party::Alice);
    assert_eq!(flow.recipient(), Party::Bob);
    assert!(flow.events().is_empty());
    match action {
        SendAction::DeclareIntent { body, .. } => {
            assert_eq!(body, parsed("{\"content\":\" hi \"}"))
        }
        other => panic!("unexpected {:?}", other),
    }
}

#[test]
fn send_hi_reports_six_events() {
    let state = state_for_api();
    let (flow, _) = send_message(&state, &send_request("alice", "bob", "hi")).unwrap();
    let tx = &state.packet_tx;
    let (flow, _) = flow.advance(tx, SendReply::Declared { id: "m-1".to_string(), json: Some("{}".to_string()) });
    let (flow, _) = flow.advance(tx, SendReply::Packed(Ok("{}".to_string())));
    let (flow, _) = flow.advance(tx, SendReply::Wrapped(Ok("{}".to_string())));
    let (flow, _) = flow.advance(tx, SendReply::Dispatched(Ok("ok".to_string())));
    let (flow, action) = flow.advance(tx, SendReply::Arrived(Ok(None)));
    let response = send_message_response(&flow, &action).unwrap();
    assert_eq!(response.status, 200);
    assert_eq!(response.body["status"], Value::from("delivered"));
    assert_eq!(response.body["events_count"], Value::from(6u64));
    assert_eq!(response.body["correlation_id"], Value::from(flow.correlation_id()));
    assert_eq!(response.body.as_object().unwrap().len(), 3);
    assert_eq!(flow.events()[5].step(), PacketStep::MessageDelivery);
}

#[test]
fn failed_send_reports_the_operation() {
    let state = state_for_api();
    let (flow, _) = send_message(&state, &send_request("alice", "bob", "hi")).unwrap();
    let tx = &state.packet_tx;
    let (flow, _) = flow.advance(tx, SendReply::Declared { id: "m-1".to_string(), json: None });
    let (flow, action) = flow.advance(tx, SendReply::Packed(Err("no key".to_string())));
    let response = send_message_response(&flow, &action).unwrap();
    assert_eq!(response.status, 500);
    assert_eq!(
        response.body,
        parsed("{\"error\":\"pack_encrypted failed: no key\",\"step\":\"send_message\"}")
    );
}

#[test]
fn flow_failure_tells_the_fault() {
    let validation = flow_failure("send_message", &FlowError::UnknownSender("x".to_string()));
    assert_eq!(validation.status, 400);
    assert_eq!(validation.body, parsed("{\"error\":\"Unknown sender: x\"}"));
    let out_of_turn = flow_failure("trust_ping", &FlowError::UnexpectedReply);
    assert_eq!(out_of_turn.status, 500);
    assert_eq!(out_of_turn.body, parsed("{\"error\":\"unexpected reply\",\"step\":\"trust_ping\"}"));
}

#[test]
fn flow_summary_is_exact() {
    let none = flow_summary("delivered", &Vec::new());
    assert_eq!(none.status, 200);
    assert_eq!(
        none.body,
        parsed("{\"status\":\"delivered\",\"events_count\":0,\"correlation_id\":null}")
    );
    let record = PacketEvent::new(
        PacketDirection::Outbound,
        "a",
        "b",
        PacketStep::TrustPing,
        Value::Null,
        Some("c-1".to_string()),
    );
    let orphan = PacketEvent::new(
        PacketDirection::Outbound,
        "a",
        "b",
        PacketStep::TrustPong,
        Value::Null,
        None,
    );
    let two = flow_summary("pong_received", &vec![record.clone(), orphan.clone()]);
    assert_eq!(
        two.body,
        parsed("{\"status\":\"pong_received\",\"events_count\":2,\"correlation_id\":\"c-1\"}")
    );
    let first_without = flow_summary("x", &vec![orphan, record]);
    assert_eq!(
        first_without.body,
        parsed("{\"status\":\"x\",\"events_count\":2,\"correlation_id\":null}")
    );
}

#[test]
fn ping_without_pong_is_a_success() {
    let state = state_for_api();
    let request = PingRequest { from: "alice".to_string(), to: "bob".to_string() };
    let (flow, action) = send_ping(&state, &request).unwrap();
    assert!(matches!(action, PingAction::SendPing { .. }));
    let tx = &state.packet_tx;
    let sent = PingSent { message_hash: "h".to_string(), message_id: "p".to_string() };
    let (flow, _) = flow.advance(tx, PingReply::Pinged(Ok(sent)));
    let (flow, action) = flow.advance(tx, PingReply::Ponged(Ok(None)));
    let response = send_ping_response(&flow, &action).unwrap();
    assert_eq!(response.status, 200);
    assert_eq!(response.body["status"], Value::from("pong_received"));
    assert_eq!(response.body["events_count"], Value::from(3u64));
    assert_eq!(response.body["correlation_id"], Value::from(flow.correlation_id()));
    assert_eq!(flow.events()[2].step(), PacketStep::TrustPong);
    assert_eq!(flow.events()[2].raw_json().clone(), parsed("{\"status\":\"timeout\"}"));
}

#[test]
fn ping_with_unknown_alias_is_the_requests_fault() {
    let state = state_for_api();
    let mut observer = subscribe(&state.packet_tx);
    let sender =
        send_ping(&state, &PingRequest { from: "eve".to_string(), to: "bob".to_string() })
            .unwrap_err();
    assert_eq!(sender.status, 400);
    assert_eq!(sender.body, parsed("{\"error\":\"Unknown sender: eve\"}"));
    let target =
        send_ping(&state, &PingRequest { from: "bob".to_string(), to: "eve".to_string() })
            .unwrap_err();
    assert_eq!(target.status, 400);
    assert_eq!(target.body, parsed("{\"error\":\"Unknown ping target: eve\"}"));
    assert!(matches!(observer.poll(), Delivery::Idle));
}

#[test]
fn failed_ping_reports_the_operation() {
    let state = state_for_api();
    let request = PingRequest { from: "bob".to_string(), to: "alice".to_string() };
    let (flow, _) = send_ping(&state, &request).unwrap();
    let (flow, action) = flow.advance(&state.packet_tx, PingReply::Pinged(Err("offline".to_string())));
    let response = send_ping_response(&flow, &action).unwrap();
    assert_eq!(response.status, 500);
    assert_eq!(
        response.body,
        parsed("{\"error\":\"send_ping failed: offline\",\"step\":\"trust_ping\"}")
    );
}

#[test]
fn fetch_is_planned_for_a_known_party() {
    let plan = fetch_messages("Alice").unwrap();
    assert_eq!(plan.party, Party::Alice);
    assert_eq!(plan.limit, 50);
    assert!(!plan.delete_after_fetch);
    assert_eq!(plan.start_id, None);
    assert_eq!(fetch_messages("BOB").unwrap().party, Party::Bob);
    assert_eq!(fetch_lowered("bob", "Bob").unwrap().party, Party::Bob);
}

#[test]
fn fetch_for_an_unknown_alias_is_refused() {
    let response = fetch_messages("Mediator").unwrap_err();
    assert_eq!(response.status, 400);
    assert_eq!(response.body, parsed("{\"error\":\"Unknown alias: Mediator\"}"));
    let raw = fetch_lowered("Alice", "Alice").unwrap_err();
    assert_eq!(raw.body, parsed("{\"error\":\"Unknown alias: Alice\"}"));
}

#[test]
fn fetched_messages_are_listed_in_order() {
    let messages = vec![
        StoredMessage { msg_id: "1".to_string(), msg: Some("{\"a\":1}".to_string()) },
        StoredMessage { msg_id: "2".to_string(), msg: None },
    ];
    let response = fetched_response(&Ok(messages));
    assert_eq!(response.status, 200);
    assert_eq!(
        response.body,
        parsed(
            "{\"messages\":[{\"msg_id\":\"1\",\"msg\":\"{\\\"a\\\":1}\"},\
             {\"msg_id\":\"2\",\"msg\":null}]}"
        )
    );
    let empty = fetched_response(&Ok(Vec::new()));
    assert_eq!(empty.body, parsed("{\"messages\":[]}"));
}

#[test]
fn failed_fetch_reports_the_operation() {
    let response = fetched_response(&Err("mediator down".to_string()));
    assert_eq!(response.status, 500);
    assert_eq!(
        response.body,
        parsed("{\"error\":\"mediator down\",\"step\":\"fetch_messages\"}")
    );
}

#[test]
fn stream_item_is_a_packet_with_the_wire_text() {
    let record = PacketEvent::new(
        PacketDirection::Outbound,
        "a",
        "b",
        PacketStep::TrustPing,
        parsed("{\"x\":[1,2]}"),
        Some("c".to_string()),
    );
    let expected = record.to_json();
    let item = stream_item(&Delivery::Record(record)).unwrap();
    assert_eq!(item.event, "packet");
    assert_eq!(parsed(&item.data), expected);
}

#[test]
fn stream_item_swallows_everything_but_records() {
    assert!(stream_item(&Delivery::Lagged(12)).is_none());
    assert!(stream_item(&Delivery::Idle).is_none());
    assert!(stream_item(&Delivery::Closed).is_none());
}

#[test]
fn live_stream_has_its_own_subscription_and_keep_alive() {
    let state = state_for_api();
    let mut first = packet_stream(&state);
    assert_eq!(first.keep_alive_secs, 15);
    assert_eq!(first.keep_alive_text, "ping");
    assert!(first.next_item().is_none());
    reset_demo(&state);
    let mut second = packet_stream(&state);
    let item = first.next_item().unwrap();
    assert_eq!(item.event, "packet");
    assert_eq!(parsed(&item.data)["raw_json"], parsed("{\"action\":\"reset\"}"));
    assert!(first.next_item().is_none());
    assert!(second.next_item().is_none());
}

#[test]
fn live_stream_skips_over_a_lag() {
    let state = state_for_api();
    let mut stream = packet_stream(&state);
    for _ in 0..260 {
        reset_demo(&state);
    }
    assert!(stream.next_item().is_none());
    let mut items = 0;
    while stream.next_item().is_some() {
        items += 1;
    }
    assert_eq!(items, 256);
}

#[test]
fn reset_publishes_one_record_to_every_subscription() {
    let state = state_for_api();
    let mut first = subscribe(&state.packet_tx);
    let mut second = subscribe(&state.packet_tx);
    let outcome = reset_demo(&state);
    assert_eq!(outcome.response.status, 200);
    assert_eq!(outcome.response.body, parsed("{\"status\":\"reset\"}"));
    assert_eq!(outcome.record.correlation_id(), None);
    assert_eq!(outcome.record.raw_json().clone(), parsed("{\"action\":\"reset\"}"));
    assert_eq!(outcome.record.direction(), PacketDirection::Outbound);
    assert_eq!(outcome.record.from(), "system");
    assert_eq!(outcome.record.to(), "all");
    assert_eq!(outcome.record.step(), PacketStep::PlaintextMessage);
    assert_eq!(outcome.record.label(), "① Plaintext Message");
    assert_eq!(outcome.record.color(), "blue");
    for subscription in [&mut first, &mut second] {
        match subscription.poll() {
            Delivery::Record(record) => {
                assert_eq!(record.to_json(), outcome.record.to_json());
                assert_eq!(record.correlation_id(), None);
            }
            other => panic!("unexpected {:?}", other),
        }
        assert!(matches!(subscription.poll(), Delivery::Idle));
    }
}

#[test]
fn a_flow_that_has_not_ended_has_no_answer() {
    let state = state_for_api();
    let (flow, action) = send_message(&state, &send_request("alice", "bob", "hi")).unwrap();
    assert!(send_message_response(&flow, &action).is_none());
    let (flow, action) = flow.advance(
        &state.packet_tx,
        SendReply::Declared { id: "m".to_string(), json: None },
    );
    assert!(send_message_response(&flow, &action).is_none());
    let request = PingRequest { from: "alice".to_string(), to: "bob".to_string() };
    let (ping, asked) = send_ping(&state, &request).unwrap();
    assert!(send_ping_response(&ping, &asked).is_none());
    let sent = PingSent { message_hash: "h".to_string(), message_id: "p".to_string() };
    let (ping, asked) = ping.advance(&state.packet_tx, PingReply::Pinged(Ok(sent)));
    assert!(send_ping_response(&ping, &asked).is_none());
    let (ping, asked) = ping.advance(&state.packet_tx, PingReply::Ponged(Ok(None)));
    assert_eq!(send_ping_response(&ping, &asked).unwrap().status, 200);
}

#[test]
fn ping_to_a_mediator_is_the_requests_fault() {
    let state = state_for_api();
    let mut observer = subscribe(&state.packet_tx);
    let request = PingRequest { from: "alice".to_string(), to: "mediator".to_string() };
    let response = send_ping(&state, &request).unwrap_err();
    assert_eq!(response.status, 400);
    assert_eq!(response.body, parsed("{\"error\":\"Unknown ping target: mediator\"}"));
    assert!(matches!(observer.poll(), Delivery::Idle));
}

#[test]
fn a_body_of_unicode_white_space_is_blank() {
    let state = state_for_api();
    let mut observer = subscribe(&state.packet_tx);
    let spaces = "\u{9}\u{a}\u{b}\u{c}\u{d}\u{20}\u{85}\u{a0}\u{1680}\u{2000}\u{2001}\u{2002}\
                  \u{2003}\u{2004}\u{2005}\u{2006}\u{2007}\u{2008}\u{2009}\u{200a}\u{2028}\
                  \u{2029}\u{202f}\u{205f}\u{3000}";
    assert_eq!(spaces.chars().count(), 25);
    let response = send_message(&state, &send_request("alice", "bob", spaces)).unwrap_err();
    assert_eq!(response.status, 400);
    assert_eq!(response.body, parsed("{\"error\":\"body cannot be empty\"}"));
    assert!(matches!(observer.poll(), Delivery::Idle));
}

#[test]
fn a_body_with_anything_but_white_space_is_taken() {
    let state = state_for_api();
    for body in ["\u{200b}", "\u{feff}", "\u{180e}", "\u{1f}", " x ", "\u{3000}a\u{3000}"] {
        assert!(send_message(&state, &send_request("alice", "bob", body)).is_ok());
    }
}

#[test]
fn live_stream_is_on_the_channel_of_the_state() {
    let state = state_for_api();
    let mut stream = packet_stream(&state);
    let outcome = reset_demo(&state);
    let item = stream.next_item().unwrap();
    assert_eq!(parsed(&item.data), outcome.record.to_json());
}
