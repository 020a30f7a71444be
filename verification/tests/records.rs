use didcomm_demo::packet_logger::{
    create_packet_channel, publish, subscribe, subscribers_reached, Delivery, PacketDirection,
    PacketEvent, PacketStep,
};
use serde_json::Value;

fn doc(source: &str) -> Value {
    serde_json::from_str(source).unwrap()
}

fn sample(step: PacketStep, payload: &str) -> PacketEvent {
    PacketEvent::new(
        PacketDirection::Outbound,
        "did:example:alice",
        "did:example:bob",
        step,
        doc(payload),
        Some("flow-1".to_string()),
    )
}

fn numbered(n: u64) -> PacketEvent {
    PacketEvent::new(
        PacketDirection::Outbound,
        "system",
        "all",
        PacketStep::PlaintextMessage,
        Value::from(n),
        None,
    )
}

fn expect_record(delivery: Delivery) -> PacketEvent {
    match delivery {
        Delivery::Record(record) => record,
        other => panic!("expected a record, got {:?}", other),
    }
}

#[test]
fn labels_are_fixed_per_step() {
    assert_eq!(PacketStep::PlaintextMessage.label(), "① Plaintext Message");
    assert_eq!(PacketStep::SignedEnvelope.label(), "② Signed Envelope");
    assert_eq!(PacketStep::EncryptedPayload.label(), "③ Encrypted Payload");
    assert_eq!(PacketStep::EncryptedForward.label(), "④ Forward Envelope");
    assert_eq!(PacketStep::MediatorSend.label(), "⑤ Mediator Send");
    assert_eq!(PacketStep::MediatorAck.label(), "⑤ Mediator ACK");
    assert_eq!(PacketStep::TrustPing.label(), "① Trust Ping");
    assert_eq!(PacketStep::TrustPong.label(), "② Trust Pong");
    assert_eq!(PacketStep::MessagePickup.label(), "⑥ Message Pickup");
    assert_eq!(PacketStep::MessageDelivery.label(), "⑥ Message Delivery");
}

#[test]
fn colors_are_fixed_per_step() {
    assert_eq!(PacketStep::PlaintextMessage.color(), "blue");
    assert_eq!(PacketStep::SignedEnvelope.color(), "yellow");
    assert_eq!(PacketStep::EncryptedPayload.color(), "red");
    assert_eq!(PacketStep::EncryptedForward.color(), "red");
    assert_eq!(PacketStep::MediatorSend.color(), "orange");
    assert_eq!(PacketStep::MediatorAck.color(), "green");
    assert_eq!(PacketStep::TrustPing.color(), "purple");
    assert_eq!(PacketStep::TrustPong.color(), "purple");
    assert_eq!(PacketStep::MessagePickup.color(), "green");
    assert_eq!(PacketStep::MessageDelivery.color(), "green");
}

#[test]
fn wire_names_are_snake_case() {
    assert_eq!(PacketStep::PlaintextMessage.wire_name(), "plaintext_message");
    assert_eq!(PacketStep::SignedEnvelope.wire_name(), "signed_envelope");
    assert_eq!(PacketStep::EncryptedPayload.wire_name(), "encrypted_payload");
    assert_eq!(PacketStep::EncryptedForward.wire_name(), "encrypted_forward");
    assert_eq!(PacketStep::MediatorSend.wire_name(), "mediator_send");
    assert_eq!(PacketStep::MediatorAck.wire_name(), "mediator_ack");
    assert_eq!(PacketStep::TrustPing.wire_name(), "trust_ping");
    assert_eq!(PacketStep::TrustPong.wire_name(), "trust_pong");
    assert_eq!(PacketStep::MessagePickup.wire_name(), "message_pickup");
    assert_eq!(PacketStep::MessageDelivery.wire_name(), "message_delivery");
    assert_eq!(PacketDirection::Outbound.wire_name(), "outbound");
    assert_eq!(PacketDirection::Inbound.wire_name(), "inbound");
}

#[test]
fn new_record_takes_label_and_color_from_its_step() {
    let a = sample(PacketStep::TrustPing, "{\"a\":1}");
    let b = PacketEvent::new(
        PacketDirection::Inbound,
        "someone",
        "else",
        PacketStep::TrustPing,
        doc("[1,2,3]"),
        None,
    );
    assert_eq!(a.label(), "① Trust Ping");
    assert_eq!(a.color(), "purple");
    assert_eq!(b.label(), a.label());
    assert_eq!(b.color(), a.color());
}

#[test]
fn new_record_holds_what_it_was_given() {
    let record = PacketEvent::new(
        PacketDirection::Inbound,
        "mediator",
        "did:example:alice",
        PacketStep::MediatorAck,
        doc("{\"status\":\"stored\"}"),
        Some("c-7".to_string()),
    );
    assert_eq!(record.direction(), PacketDirection::Inbound);
    assert_eq!(record.from(), "mediator");
    assert_eq!(record.to(), "did:example:alice");
    assert_eq!(record.from_alias(), None);
    assert_eq!(record.to_alias(), None);
    assert_eq!(record.step(), PacketStep::MediatorAck);
    assert_eq!(record.label(), "⑤ Mediator ACK");
    assert_eq!(record.color(), "green");
    assert_eq!(record.raw_json().clone(), doc("{\"status\":\"stored\"}"));
    assert_eq!(record.correlation_id(), Some("c-7"));
}

#[test]
fn new_record_has_a_fresh_hyphenated_id() {
    let a = sample(PacketStep::PlaintextMessage, "null");
    let b = sample(PacketStep::PlaintextMessage, "null");
    assert_eq!(a.id().chars().count(), 36);
    assert_eq!(b.id().chars().count(), 36);
    assert_ne!(a.id(), b.id());
    let hyphens: Vec<usize> =
        a.id().char_indices().filter(|(_, c)| *c == '-').map(|(i, _)| i).collect();
    assert_eq!(hyphens, vec![8, 13, 18, 23]);
}

#[test]
fn new_record_has_an_rfc3339_timestamp() {
    let record = sample(PacketStep::PlaintextMessage, "null");
    assert!(chrono::DateTime::parse_from_rfc3339(record.timestamp()).is_ok());
}

#[test]
fn assemble_is_exact() {
    let record = PacketEvent::assemble(
        "id-1".to_string(),
        "2024-01-02T03:04:05+00:00".to_string(),
        PacketDirection::Outbound,
        "a",
        "b",
        PacketStep::EncryptedForward,
        doc("{\"k\":[true,null]}"),
        None,
    );
    assert_eq!(record.id(), "id-1");
    assert_eq!(record.timestamp(), "2024-01-02T03:04:05+00:00");
    assert_eq!(record.direction(), PacketDirection::Outbound);
    assert_eq!(record.from(), "a");
    assert_eq!(record.to(), "b");
    assert_eq!(record.from_alias(), None);
    assert_eq!(record.to_alias(), None);
    assert_eq!(record.step(), PacketStep::EncryptedForward);
    assert_eq!(record.label(), "④ Forward Envelope");
    assert_eq!(record.color(), "red");
    assert_eq!(record.raw_json().clone(), doc("{\"k\":[true,null]}"));
    assert_eq!(record.correlation_id(), None);
}

#[test]
fn with_aliases_changes_only_the_aliases() {
    let before = PacketEvent::assemble(
        "id-2".to_string(),
        "t".to_string(),
        PacketDirection::Inbound,
        "did:a",
        "did:b",
        PacketStep::TrustPong,
        doc("{}"),
        Some("c".to_string()),
    );
    let after = before.clone().with_aliases("alice", "bob");
    assert_eq!(after.from_alias(), Some("alice"));
    assert_eq!(after.to_alias(), Some("bob"));
    assert_eq!(after.id(), before.id());
    assert_eq!(after.timestamp(), before.timestamp());
    assert_eq!(after.direction(), before.direction());
    assert_eq!(after.from(), before.from());
    assert_eq!(after.to(), before.to());
    assert_eq!(after.step(), before.step());
    assert_eq!(after.label(), before.label());
    assert_eq!(after.color(), before.color());
    assert_eq!(after.raw_json().clone(), before.raw_json().clone());
    assert_eq!(after.correlation_id(), before.correlation_id());
}

#[test]
fn clone_keeps_every_field() {
    let before = sample(PacketStep::MediatorSend, "{\"n\":5}").with_aliases("alice", "bob");
    let copy = before.clone();
    assert_eq!(copy.to_json(), before.to_json());
}

#[test]
fn wire_format_without_aliases() {
    let record = PacketEvent::assemble(
        "id-3".to_string(),
        "2024-01-02T03:04:05+00:00".to_string(),
        PacketDirection::Outbound,
        "did:a",
        "did:b",
        PacketStep::PlaintextMessage,
        doc("{\"content\":\"hi\"}"),
        None,
    );
    let expected = doc(
        "{\"id\":\"id-3\",\"timestamp\":\"2024-01-02T03:04:05+00:00\",\
         \"direction\":\"outbound\",\"from\":\"did:a\",\"to\":\"did:b\",\
         \"step\":\"plaintext_message\",\"label\":\"① Plaintext Message\",\
         \"color\":\"blue\",\"raw_json\":{\"content\":\"hi\"},\"correlation_id\":null}",
    );
    assert_eq!(record.to_json(), expected);
}

#[test]
fn wire_format_with_aliases_and_correlation() {
    let record = PacketEvent::assemble(
        "id-4".to_string(),
        "t".to_string(),
        PacketDirection::Inbound,
        "mediator",
        "did:a",
        PacketStep::MediatorAck,
        doc("7"),
        Some("corr".to_string()),
    )
    .with_aliases("mediator", "alice");
    let expected = doc(
        "{\"id\":\"id-4\",\"timestamp\":\"t\",\"direction\":\"inbound\",\
         \"from\":\"mediator\",\"to\":\"did:a\",\"from_alias\":\"mediator\",\
         \"to_alias\":\"alice\",\"step\":\"mediator_ack\",\"label\":\"⑤ Mediator ACK\",\
         \"color\":\"green\",\"raw_json\":7,\"correlation_id\":\"corr\"}",
    );
    assert_eq!(record.to_json(), expected);
}

#[test]
fn wire_text_reads_back_as_the_wire_document() {
    let record = sample(PacketStep::EncryptedPayload, "{\"ciphertext\":\"abc\"}");
    let text = record.to_json_text();
    assert_ne!(text, "");
    assert_eq!(doc(&text), record.to_json());
}

#[test]
fn publish_without_subscribers_reaches_none() {
    let tx = create_packet_channel();
    assert_eq!(publish(&tx, &numbered(1)), 0);
    assert_eq!(publish(&tx, &numbered(2)), 0);
}

#[test]
fn publish_reaches_every_subscription() {
    let tx = create_packet_channel();
    let _first = subscribe(&tx);
    assert_eq!(publish(&tx, &numbered(1)), 1);
    let _second = subscribe(&tx);
    assert_eq!(publish(&tx, &numbered(2)), 2);
}

#[test]
fn subscription_is_idle_until_something_is_published() {
    let tx = create_packet_channel();
    let mut subscription = subscribe(&tx);
    assert!(matches!(subscription.poll(), Delivery::Idle));
    publish(&tx, &numbered(1));
    let record = expect_record(subscription.poll());
    assert_eq!(record.raw_json().clone(), Value::from(1u64));
    assert!(matches!(subscription.poll(), Delivery::Idle));
}

#[test]
fn subscription_delivers_a_copy_of_the_record() {
    let tx = create_packet_channel();
    let mut subscription = subscribe(&tx);
    let sent = sample(PacketStep::TrustPing, "{\"x\":1}").with_aliases("alice", "bob");
    publish(&tx, &sent);
    let received = expect_record(subscription.poll());
    assert_eq!(received.to_json(), sent.to_json());
}

#[test]
fn subscription_never_sees_what_was_published_before_it() {
    let tx = create_packet_channel();
    let _keeper = subscribe(&tx);
    for n in 0..5u64 {
        publish(&tx, &numbered(n));
    }
    let mut late = subscribe(&tx);
    assert!(matches!(late.poll(), Delivery::Idle));
    for n in 5..8u64 {
        publish(&tx, &numbered(n));
    }
    let mut seen = Vec::new();
    loop {
        match late.poll() {
            Delivery::Record(record) => seen.push(record.raw_json().clone()),
            Delivery::Idle => break,
            other => panic!("unexpected {:?}", other),
        }
    }
    assert_eq!(seen, vec![Value::from(5u64), Value::from(6u64), Value::from(7u64)]);
}

#[test]
fn subscription_keeps_the_order_of_publication() {
    let tx = create_packet_channel();
    let mut subscription = subscribe(&tx);
    let mut sent_ids = Vec::new();
    for n in 0..40u64 {
        let record = numbered(n);
        sent_ids.push(record.id().to_string());
        publish(&tx, &record);
    }
    let mut seen_ids = Vec::new();
    while let Delivery::Record(record) = subscription.poll() {
        seen_ids.push(record.id().to_string());
    }
    assert_eq!(seen_ids, sent_ids);
}

#[test]
fn two_subscriptions_receive_identical_copies_independently() {
    let tx = create_packet_channel();
    let mut fast = subscribe(&tx);
    let mut slow = subscribe(&tx);
    let mut sent = Vec::new();
    let mut fast_seen = Vec::new();
    for n in 0..10u64 {
        let record = numbered(n);
        sent.push(record.to_json());
        publish(&tx, &record);
        fast_seen.push(expect_record(fast.poll()).to_json());
    }
    assert!(matches!(fast.poll(), Delivery::Idle));
    let mut slow_seen = Vec::new();
    while let Delivery::Record(record) = slow.poll() {
        slow_seen.push(record.to_json());
    }
    assert_eq!(fast_seen, sent);
    assert_eq!(slow_seen, sent);
}

#[test]
fn full_window_is_delivered_without_a_gap() {
    let tx = create_packet_channel();
    let mut subscription = subscribe(&tx);
    for n in 0..256u64 {
        publish(&tx, &numbered(n));
    }
    for n in 0..256u64 {
        assert_eq!(expect_record(subscription.poll()).raw_json().clone(), Value::from(n));
    }
    assert!(matches!(subscription.poll(), Delivery::Idle));
}

#[test]
fn overflow_drops_the_oldest_records_of_that_subscription_only() {
    let tx = create_packet_channel();
    let mut behind = subscribe(&tx);
    let mut current = subscribe(&tx);
    for n in 0..300u64 {
        publish(&tx, &numbered(n));
        assert_eq!(expect_record(current.poll()).raw_json().clone(), Value::from(n));
    }
    match behind.poll() {
        Delivery::Lagged(skipped) => assert_eq!(skipped, 44),
        other => panic!("expected a lag, got {:?}", other),
    }
    let mut seen = Vec::new();
    while let Delivery::Record(record) = behind.poll() {
        seen.push(record.raw_json().clone());
    }
    let expected: Vec<Value> = (44..300u64).map(Value::from).collect();
    assert_eq!(seen, expected);
}

#[test]
fn subscription_closes_when_the_sender_is_gone() {
    let tx = create_packet_channel();
    let mut subscription = subscribe(&tx);
    publish(&tx, &numbered(1));
    drop(tx);
    assert_eq!(expect_record(subscription.poll()).raw_json().clone(), Value::from(1u64));
    assert!(matches!(subscription.poll(), Delivery::Closed));
}

#[test]
fn subscribers_reached_is_the_number_given_or_none() {
    assert_eq!(subscribers_reached(Some(3)), 3);
    assert_eq!(subscribers_reached(Some(1)), 1);
    assert_eq!(subscribers_reached(None), 0);
}

#[test]
fn a_lag_moves_the_subscription_on_by_what_it_skipped() {
    let tx = create_packet_channel();
    let mut subscription = subscribe(&tx);
    for n in 0..258u64 {
        publish(&tx, &numbered(n));
    }
    match subscription.poll() {
        Delivery::Lagged(skipped) => assert_eq!(skipped, 2),
        other => panic!("expected a lag, got {:?}", other),
    }
    assert_eq!(expect_record(subscription.poll()).raw_json().clone(), Value::from(2u64));
    assert_eq!(expect_record(subscription.poll()).raw_json().clone(), Value::from(3u64));
}

#[test]
fn a_second_subscription_has_the_window_of_the_channel() {
    let tx = create_packet_channel();
    let _first = subscribe(&tx);
    for n in 0..10u64 {
        publish(&tx, &numbered(n));
    }
    let mut second = subscribe(&tx);
    for n in 10..266u64 {
        publish(&tx, &numbered(n));
    }
    for n in 10..266u64 {
        assert_eq!(expect_record(second.poll()).raw_json().clone(), Value::from(n));
    }
    publish(&tx, &numbered(266));
    for n in 267..(267 + 256u64) {
        publish(&tx, &numbered(n));
    }
    match second.poll() {
        Delivery::Lagged(skipped) => assert_eq!(skipped, 1),
        other => panic!("expected a lag, got {:?}", other),
    }
}
