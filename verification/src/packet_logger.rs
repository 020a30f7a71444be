//! Event records and the channel that fans them out: the protocol step
//! kinds with their display attributes, the record that describes one step
//! of a flow, its wire format, and the broadcast channel with its
//! subscriptions.
//!
//! The channel is `tokio`'s broadcast channel. It is shared by reference
//! among all the flows that publish at the same time, so what it holds is no
//! function of a sender's value, and no contract here speaks of it: which
//! records a subscription delivers, and in which order, is the channel's
//! doing. What the contracts do speak of is what a handle has of its own:
//! the window of its channel, and the place of a subscription in it.
use crate::json::{json_of, no_members, null, object, render, rendered, text, Json};
use crate::text::{copy_opt_text, opt_str, opt_text};
use serde_json::Value;
use tokio::sync::broadcast::{Receiver, Sender};
use vstd::arithmetic::power2::is_pow2;
use vstd::prelude::*;

verus! {

/// The step within the DIDComm send/receive pipeline.
#[derive(Debug, Clone, Copy, PartialEq, Eq, Structural)]
pub enum PacketStep {
    PlaintextMessage,
    SignedEnvelope,
    EncryptedPayload,
    EncryptedForward,
    MediatorSend,
    MediatorAck,
    TrustPing,
    TrustPong,
    MessagePickup,
    MessageDelivery,
}

impl PacketStep {
    /// The badge text that belongs to a step.
    pub open spec fn label_text(self) -> Seq<char> {
        match self {
            PacketStep::PlaintextMessage => "① Plaintext Message"@,
            PacketStep::SignedEnvelope => "② Signed Envelope"@,
            PacketStep::EncryptedPayload => "③ Encrypted Payload"@,
            PacketStep::EncryptedForward => "④ Forward Envelope"@,
            PacketStep::MediatorSend => "⑤ Mediator Send"@,
            PacketStep::MediatorAck => "⑤ Mediator ACK"@,
            PacketStep::TrustPing => "① Trust Ping"@,
            PacketStep::TrustPong => "② Trust Pong"@,
            PacketStep::MessagePickup => "⑥ Message Pickup"@,
            PacketStep::MessageDelivery => "⑥ Message Delivery"@,
        }
    }

    /// The colour class that belongs to a step.
    pub open spec fn color_text(self) -> Seq<char> {
        match self {
            PacketStep::PlaintextMessage => "blue"@,
            PacketStep::SignedEnvelope => "yellow"@,
            PacketStep::EncryptedPayload | PacketStep::EncryptedForward => "red"@,
            PacketStep::MediatorSend => "orange"@,
            PacketStep::MediatorAck => "green"@,
            PacketStep::TrustPing | PacketStep::TrustPong => "purple"@,
            PacketStep::MessagePickup | PacketStep::MessageDelivery => "green"@,
        }
    }

    /// Human-readable label for the frontend badge.
    pub fn label(&self) -> (text: &'static str)
        ensures
            text@ == self.label_text(),
    {
        match self {
            PacketStep::PlaintextMessage => "① Plaintext Message",
            PacketStep::SignedEnvelope => "② Signed Envelope",
            PacketStep::EncryptedPayload => "③ Encrypted Payload",
            PacketStep::EncryptedForward => "④ Forward Envelope",
            PacketStep::MediatorSend => "⑤ Mediator Send",
            PacketStep::MediatorAck => "⑤ Mediator ACK",
            PacketStep::TrustPing => "① Trust Ping",
            PacketStep::TrustPong => "② Trust Pong",
            PacketStep::MessagePickup => "⑥ Message Pickup",
            PacketStep::MessageDelivery => "⑥ Message Delivery",
        }
    }

    /// CSS colour class hint.
    pub fn color(&self) -> (text: &'static str)
        ensures
            text@ == self.color_text(),
    {
        match self {
            PacketStep::PlaintextMessage => "blue",
            PacketStep::SignedEnvelope => "yellow",
            PacketStep::EncryptedPayload | PacketStep::EncryptedForward => "red",
            PacketStep::MediatorSend => "orange",
            PacketStep::MediatorAck => "green",
            PacketStep::TrustPing | PacketStep::TrustPong => "purple",
            PacketStep::MessagePickup | PacketStep::MessageDelivery => "green",
        }
    }
}

/// Direction of the packet relative to this demo server.
#[derive(Debug, Clone, Copy, PartialEq, Eq, Structural)]
pub enum PacketDirection {
    Outbound,
    Inbound,
}

/// A single packet event emitted to the frontend. A record is made once and
/// read thereafter; its label and its colour are always those of its step.
#[derive(Debug)]
pub struct PacketEvent {
    id: String,
    timestamp: String,
    direction: PacketDirection,
    from: String,
    to: String,
    /// Human-readable alias ("alice", "bob", "mediator") for the `from` DID.
    from_alias: Option<String>,
    /// Human-readable alias for the `to` DID.
    to_alias: Option<String>,
    step: PacketStep,
    label: String,
    color: String,
    raw_json: Value,
    /// Optional correlation ID linking related events together.
    correlation_id: Option<String>,
}

/// What a packet event holds.
pub struct PacketEventView {
    pub id: Seq<char>,
    pub timestamp: Seq<char>,
    pub direction: PacketDirection,
    pub from: Seq<char>,
    pub to: Seq<char>,
    pub from_alias: Option<Seq<char>>,
    pub to_alias: Option<Seq<char>>,
    pub step: PacketStep,
    pub label: Seq<char>,
    pub color: Seq<char>,
    pub raw_json: Json,
    pub correlation_id: Option<Seq<char>>,
}

impl PacketEventView {
    /// The label and the colour are those of the step.
    pub open spec fn well_formed(self) -> bool {
        &&& self.label == self.step.label_text()
        &&& self.color == self.step.color_text()
    }
}

impl View for PacketEvent {
    type V = PacketEventView;

    closed spec fn view(&self) -> PacketEventView {
        PacketEventView {
            id: self.id@,
            timestamp: self.timestamp@,
            direction: self.direction,
            from: self.from@,
            to: self.to@,
            from_alias: opt_text(self.from_alias),
            to_alias: opt_text(self.to_alias),
            step: self.step,
            label: self.label@,
            color: self.color@,
            raw_json: json_of(self.raw_json),
            correlation_id: opt_text(self.correlation_id),
        }
    }
}

impl PacketEvent {
    /// The label and the colour of every record are those of its step.
    #[verifier::type_invariant]
    spec fn presentable(self) -> bool {
        self@.well_formed()
    }
}

impl Clone for PacketEvent {
    fn clone(&self) -> (copy: Self)
        ensures
            copy@ == self@,
    {
        proof {
            use_type_invariant(self);
        }
        PacketEvent {
            id: self.id.clone(),
            timestamp: self.timestamp.clone(),
            direction: self.direction,
            from: self.from.clone(),
            to: self.to.clone(),
            from_alias: copy_opt_text(&self.from_alias),
            to_alias: copy_opt_text(&self.to_alias),
            step: self.step,
            label: self.label.clone(),
            color: self.color.clone(),
            raw_json: self.raw_json.clone(),
            correlation_id: copy_opt_text(&self.correlation_id),
        }
    }
}

/// The record of a step as it stands right after its creation: no aliases,
/// label and colour taken from the step.
pub open spec fn fresh_record(
    id: Seq<char>,
    timestamp: Seq<char>,
    direction: PacketDirection,
    from: Seq<char>,
    to: Seq<char>,
    step: PacketStep,
    payload: Json,
    correlation_id: Option<Seq<char>>,
) -> PacketEventView {
    PacketEventView {
        id,
        timestamp,
        direction,
        from,
        to,
        from_alias: None,
        to_alias: None,
        step,
        label: step.label_text(),
        color: step.color_text(),
        raw_json: payload,
        correlation_id,
    }
}

/// The step of a record determines how the record shows: two well-formed
/// records of one step have the same label and the same colour, whatever
/// else they hold.
pub proof fn lemma_step_determines_presentation(a: PacketEventView, b: PacketEventView)
    requires
        a.well_formed(),
        b.well_formed(),
        a.step == b.step,
    ensures
        a.label == b.label,
        a.color == b.color,
{
}

/// A record as it stands after its creation is well formed, and it stays so
/// when aliases are attached to it.
pub proof fn lemma_created_records_are_well_formed(
    id: Seq<char>,
    timestamp: Seq<char>,
    direction: PacketDirection,
    from: Seq<char>,
    to: Seq<char>,
    step: PacketStep,
    payload: Json,
    correlation_id: Option<Seq<char>>,
    from_alias: Seq<char>,
    to_alias: Seq<char>,
)
    ensures
        fresh_record(
            id,
            timestamp,
            direction,
            from,
            to,
            step,
            payload,
            correlation_id,
        ).well_formed(),
        (PacketEventView {
            from_alias: Some(from_alias),
            to_alias: Some(to_alias),
            ..fresh_record(id, timestamp, direction, from, to, step, payload, correlation_id)
        }).well_formed(),
{
}

/// `uuid::Uuid::new_v4`, written out by its `Display`: a random identifier
/// in the hyphenated form, which is 36 characters long. Nothing more is
/// said of it: two calls give two identifiers by chance alone. (The call
/// gives up where the system has no random bytes to give.)
#[verifier::external_body]
pub(crate) fn fresh_id() -> (id: String)
    ensures
        id@.len() == 36,
{
    uuid::Uuid::new_v4().to_string()
}

/// `chrono::Utc::now`, written out by `DateTime::to_rfc3339`: the time of
/// the call as an RFC 3339 string. Nothing is said of it. (The call gives
/// up where the system's clock stands before 1970.)
#[verifier::external_body]
fn timestamp_now() -> (stamp: String)
{
    chrono::Utc::now().to_rfc3339()
}

impl PacketEvent {
    /// Builds the record of a step from its identifier, its time of creation
    /// and what the step is about.
    pub fn assemble(
        id: String,
        timestamp: String,
        direction: PacketDirection,
        from: &str,
        to: &str,
        step: PacketStep,
        raw_json: Value,
        correlation_id: Option<String>,
    ) -> (event: Self)
        ensures
            event@ == fresh_record(
                id@,
                timestamp@,
                direction,
                from@,
                to@,
                step,
                json_of(raw_json),
                opt_text(correlation_id),
            ),
            event@.well_formed(),
    {
        let label = step.label().to_owned();
        let color = step.color().to_owned();
        PacketEvent {
            id,
            timestamp,
            direction,
            from: from.to_owned(),
            to: to.to_owned(),
            from_alias: None,
            to_alias: None,
            step,
            label,
            color,
            raw_json,
            correlation_id,
        }
    }

    /// Builds the record of a step, with a fresh random identifier and the
    /// current time.
    pub fn new(
        direction: PacketDirection,
        from: &str,
        to: &str,
        step: PacketStep,
        raw_json: Value,
        correlation_id: Option<String>,
    ) -> (event: Self)
        ensures
            event@ == fresh_record(
                event@.id,
                event@.timestamp,
                direction,
                from@,
                to@,
                step,
                json_of(raw_json),
                opt_text(correlation_id),
            ),
            event@.id.len() == 36,
            event@.well_formed(),
    {
        let id = fresh_id();
        let timestamp = timestamp_now();
        PacketEvent::assemble(id, timestamp, direction, from, to, step, raw_json, correlation_id)
    }

    /// Set human-readable aliases for from/to.
    pub fn with_aliases(self, from_alias: &str, to_alias: &str) -> (event: Self)
        ensures
            event@ == (PacketEventView {
                from_alias: Some(from_alias@),
                to_alias: Some(to_alias@),
                ..self@
            }),
            self@.well_formed() ==> event@.well_formed(),
    {
        proof {
            use_type_invariant(&self);
        }
        PacketEvent {
            id: self.id,
            timestamp: self.timestamp,
            direction: self.direction,
            from: self.from,
            to: self.to,
            from_alias: Some(from_alias.to_owned()),
            to_alias: Some(to_alias.to_owned()),
            step: self.step,
            label: self.label,
            color: self.color,
            raw_json: self.raw_json,
            correlation_id: self.correlation_id,
        }
    }

    /// The identifier of the record.
    pub fn id(&self) -> (id: &str)
        ensures
            id@ == self@.id,
    {
        self.id.as_str()
    }

    /// The time of the record's creation.
    pub fn timestamp(&self) -> (stamp: &str)
        ensures
            stamp@ == self@.timestamp,
    {
        self.timestamp.as_str()
    }

    /// The direction of the packet.
    pub fn direction(&self) -> (direction: PacketDirection)
        ensures
            direction == self@.direction,
    {
        self.direction
    }

    /// The endpoint that the packet comes from.
    pub fn from(&self) -> (endpoint: &str)
        ensures
            endpoint@ == self@.from,
    {
        self.from.as_str()
    }

    /// The endpoint that the packet goes to.
    pub fn to(&self) -> (endpoint: &str)
        ensures
            endpoint@ == self@.to,
    {
        self.to.as_str()
    }

    /// The alias of the endpoint that the packet comes from, if one was
    /// attached.
    pub fn from_alias(&self) -> (alias: Option<&str>)
        ensures
            opt_str(alias) == self@.from_alias,
    {
        match &self.from_alias {
            Some(alias) => Some(alias.as_str()),
            None => None,
        }
    }

    /// The alias of the endpoint that the packet goes to, if one was
    /// attached.
    pub fn to_alias(&self) -> (alias: Option<&str>)
        ensures
            opt_str(alias) == self@.to_alias,
    {
        match &self.to_alias {
            Some(alias) => Some(alias.as_str()),
            None => None,
        }
    }

    /// The step that the record describes.
    pub fn step(&self) -> (step: PacketStep)
        ensures
            step == self@.step,
    {
        self.step
    }

    /// The label of the record: that of its step.
    pub fn label(&self) -> (text: &str)
        ensures
            text@ == self@.label,
            text@ == self@.step.label_text(),
    {
        proof {
            use_type_invariant(self);
        }
        self.label.as_str()
    }

    /// The colour of the record: that of its step.
    pub fn color(&self) -> (text: &str)
        ensures
            text@ == self@.color,
            text@ == self@.step.color_text(),
    {
        proof {
            use_type_invariant(self);
        }
        self.color.as_str()
    }

    /// The payload of the record.
    pub fn raw_json(&self) -> (doc: &Value)
        ensures
            json_of(*doc) == self@.raw_json,
    {
        &self.raw_json
    }

    /// The correlation identifier of the record, if it belongs to a flow.
    pub fn correlation_id(&self) -> (id: Option<&str>)
        ensures
            opt_str(id) == self@.correlation_id,
    {
        match &self.correlation_id {
            Some(id) => Some(id.as_str()),
            None => None,
        }
    }
}

impl PacketStep {
    /// The name of a step in the wire format.
    pub open spec fn wire_text(self) -> Seq<char> {
        match self {
            PacketStep::PlaintextMessage => "plaintext_message"@,
            PacketStep::SignedEnvelope => "signed_envelope"@,
            PacketStep::EncryptedPayload => "encrypted_payload"@,
            PacketStep::EncryptedForward => "encrypted_forward"@,
            PacketStep::MediatorSend => "mediator_send"@,
            PacketStep::MediatorAck => "mediator_ack"@,
            PacketStep::TrustPing => "trust_ping"@,
            PacketStep::TrustPong => "trust_pong"@,
            PacketStep::MessagePickup => "message_pickup"@,
            PacketStep::MessageDelivery => "message_delivery"@,
        }
    }

    /// The name of a step in the wire format: its name in snake case.
    pub fn wire_name(&self) -> (name: &'static str)
        ensures
            name@ == self.wire_text(),
    {
        match self {
            PacketStep::PlaintextMessage => "plaintext_message",
            PacketStep::SignedEnvelope => "signed_envelope",
            PacketStep::EncryptedPayload => "encrypted_payload",
            PacketStep::EncryptedForward => "encrypted_forward",
            PacketStep::MediatorSend => "mediator_send",
            PacketStep::MediatorAck => "mediator_ack",
            PacketStep::TrustPing => "trust_ping",
            PacketStep::TrustPong => "trust_pong",
            PacketStep::MessagePickup => "message_pickup",
            PacketStep::MessageDelivery => "message_delivery",
        }
    }
}

impl PacketDirection {
    /// The name of a direction in the wire format.
    pub open spec fn wire_text(self) -> Seq<char> {
        match self {
            PacketDirection::Outbound => "outbound"@,
            PacketDirection::Inbound => "inbound"@,
        }
    }

    /// The name of a direction in the wire format: its name in snake case.
    pub fn wire_name(&self) -> (name: &'static str)
        ensures
            name@ == self.wire_text(),
    {
        match self {
            PacketDirection::Outbound => "outbound",
            PacketDirection::Inbound => "inbound",
        }
    }
}

/// An optional text in the wire format: the text, or null.
pub open spec fn text_or_null(value: Option<Seq<char>>) -> Json {
    match value {
        Some(s) => Json::Text(s),
        None => Json::Null,
    }
}

/// The members that every record has in the wire format.
pub open spec fn wire_base(record: PacketEventView) -> Map<Seq<char>, Json> {
    Map::<Seq<char>, Json>::empty().insert("id"@, Json::Text(record.id)).insert(
        "timestamp"@,
        Json::Text(record.timestamp),
    ).insert("direction"@, Json::Text(record.direction.wire_text())).insert(
        "from"@,
        Json::Text(record.from),
    ).insert("to"@, Json::Text(record.to)).insert(
        "step"@,
        Json::Text(record.step.wire_text()),
    ).insert("label"@, Json::Text(record.label)).insert("color"@, Json::Text(record.color)).insert(
        "raw_json"@,
        record.raw_json,
    ).insert("correlation_id"@, text_or_null(record.correlation_id))
}

/// Members with one more, where the value is there.
pub open spec fn with_optional(
    members: Map<Seq<char>, Json>,
    key: Seq<char>,
    value: Option<Seq<char>>,
) -> Map<Seq<char>, Json> {
    match value {
        Some(s) => members.insert(key, Json::Text(s)),
        None => members,
    }
}

/// A record in the wire format: an object with one member for each field.
/// An alias that is absent has no member; a correlation identifier that is
/// absent is null.
pub open spec fn wire_form(record: PacketEventView) -> Json {
    Json::Object(
        with_optional(
            with_optional(wire_base(record), "from_alias"@, record.from_alias),
            "to_alias"@,
            record.to_alias,
        ),
    )
}

/// Each field of a record has a member of its own in the wire format: no
/// member stands in for two fields, the label and the colour are members
/// like the others, and an alias has a member exactly when it is there.
pub proof fn lemma_wire_form_members(record: PacketEventView)
    ensures
        wire_form(record) matches Json::Object(members) && {
            &&& members["id"@] == Json::Text(record.id)
            &&& members["timestamp"@] == Json::Text(record.timestamp)
            &&& members["direction"@] == Json::Text(record.direction.wire_text())
            &&& members["from"@] == Json::Text(record.from)
            &&& members["to"@] == Json::Text(record.to)
            &&& members["step"@] == Json::Text(record.step.wire_text())
            &&& members["label"@] == Json::Text(record.label)
            &&& members["color"@] == Json::Text(record.color)
            &&& members["raw_json"@] == record.raw_json
            &&& members["correlation_id"@] == text_or_null(record.correlation_id)
            &&& members.contains_key("from_alias"@) <==> record.from_alias is Some
            &&& members.contains_key("to_alias"@) <==> record.to_alias is Some
            &&& record.from_alias matches Some(alias) ==> members["from_alias"@] == Json::Text(
                alias,
            )
            &&& record.to_alias matches Some(alias) ==> members["to_alias"@] == Json::Text(alias)
        },
{
    reveal_strlit("id");
    reveal_strlit("timestamp");
    reveal_strlit("direction");
    reveal_strlit("from");
    reveal_strlit("to");
    reveal_strlit("step");
    reveal_strlit("label");
    reveal_strlit("color");
    reveal_strlit("raw_json");
    reveal_strlit("correlation_id");
    reveal_strlit("from_alias");
    reveal_strlit("to_alias");
    assert("id"@.len() == 2 && "to"@.len() == 2 && "id"@[0] != "to"@[0]);
    assert("from"@.len() == 4 && "step"@.len() == 4 && "from"@[0] != "step"@[0]);
    assert("label"@.len() == 5 && "color"@.len() == 5 && "label"@[0] != "color"@[0]);
    assert("timestamp"@.len() == 9 && "direction"@.len() == 9 && "timestamp"@[0]
        != "direction"@[0]);
    assert("raw_json"@.len() == 8 && "to_alias"@.len() == 8 && "raw_json"@[0] != "to_alias"@[0]);
    assert("from_alias"@.len() == 10);
    assert("correlation_id"@.len() == 14);
}

impl PacketEvent {
    /// The record as a JSON document in the wire format.
    pub fn to_json(&self) -> (doc: Value)
        ensures
            json_of(doc) == wire_form(self@),
    {
        let mut members = no_members();
        members.insert("id".to_owned(), text(self.id.as_str()));
        members.insert("timestamp".to_owned(), text(self.timestamp.as_str()));
        members.insert("direction".to_owned(), text(self.direction.wire_name()));
        members.insert("from".to_owned(), text(self.from.as_str()));
        members.insert("to".to_owned(), text(self.to.as_str()));
        members.insert("step".to_owned(), text(self.step.wire_name()));
        members.insert("label".to_owned(), text(self.label.as_str()));
        members.insert("color".to_owned(), text(self.color.as_str()));
        members.insert("raw_json".to_owned(), self.raw_json.clone());
        let correlation = match &self.correlation_id {
            Some(id) => text(id.as_str()),
            None => null(),
        };
        members.insert("correlation_id".to_owned(), correlation);
        match &self.from_alias {
            Some(alias) => {
                members.insert("from_alias".to_owned(), text(alias.as_str()));
            },
            None => {},
        }
        match &self.to_alias {
            Some(alias) => {
                members.insert("to_alias".to_owned(), text(alias.as_str()));
            },
            None => {},
        }
        object(members)
    }

    /// The record as the text of its JSON document.
    pub fn to_json_text(&self) -> (out: String)
        ensures
            out@ == rendered(wire_form(self@)),
    {
        let doc = self.to_json();
        render(&doc)
    }
}

/// `tokio::sync::broadcast::Sender`: the sending half of a broadcast
/// channel, taken as a whole.
#[verifier::external_type_specification]
#[verifier::external_body]
#[verifier::reject_recursive_types(T)]
pub struct ExSender<T>(Sender<T>);

/// `tokio::sync::broadcast::Receiver`: one receiving half of a broadcast
/// channel, taken as a whole.
#[verifier::external_type_specification]
#[verifier::external_body]
#[verifier::reject_recursive_types(T)]
pub struct ExReceiver<T>(Receiver<T>);

/// The number of records that the channel behind a sender retains for a
/// subscriber that does not keep up.
pub uninterp spec fn window_of(tx: Sender<PacketEvent>) -> nat;

/// The number of records that the packet channel retains for each
/// subscription.
pub const PACKET_WINDOW: usize = 256;

/// `tokio::sync::broadcast::channel`, of which the sender is kept: a channel
/// that retains the asked number of values, rounded up to a power of two.
/// No receiver is subscribed to it yet.
#[verifier::external_body]
fn open_channel(capacity: usize) -> (tx: Sender<PacketEvent>)
    requires
        0 < capacity <= usize::MAX / 2,
    ensures
        capacity <= window_of(tx) < 2 * capacity,
        is_pow2(window_of(tx) as int),
{
    let (tx, _rx) = tokio::sync::broadcast::channel::<PacketEvent>(capacity);
    tx
}

/// `tokio::sync::broadcast::Sender::send`: hands a value to the channel and
/// gives the number of receivers subscribed at that moment, or nothing
/// where there is none and the value is dropped. Nothing is said of the
/// number: it depends on who else holds the channel.
#[verifier::external_body]
fn hand_over(tx: &Sender<PacketEvent>, record: PacketEvent) -> (reached: Option<usize>)
{
    tx.send(record).ok()
}

/// Create a broadcast channel for packet events. Subscribers come by
/// [`subscribe`].
pub fn create_packet_channel() -> (tx: Sender<PacketEvent>)
    ensures
        window_of(tx) == PACKET_WINDOW,
{
    let tx = open_channel(PACKET_WINDOW);
    proof {
        lemma_window_is_exact(window_of(tx));
    }
    tx
}

/// A power of two from 256 up to, and not including, 512 is 256.
proof fn lemma_window_is_exact(window: nat)
    requires
        256 <= window < 512,
        is_pow2(window as int),
    ensures
        window == 256,
{
    reveal_with_fuel(is_pow2, 10);
}

/// The number of subscriptions that a record reached, given what the
/// channel said when it took the record: the number it gave, or none where
/// it gave nothing.
pub fn subscribers_reached(answer: Option<usize>) -> (reached: usize)
    ensures
        reached == match answer {
            Some(subscribed) => subscribed,
            None => 0,
        },
{
    match answer {
        Some(subscribed) => subscribed,
        None => 0,
    }
}

/// Hands a copy of a record to every subscription of the channel, and says
/// how many there were. It does not wait for any of them, and it does not
/// fail where there is none: the copy is then dropped.
pub fn publish(tx: &Sender<PacketEvent>, record: &PacketEvent) -> (reached: usize) {
    subscribers_reached(hand_over(tx, record.clone()))
}

/// What a subscription has for its owner at one moment.
#[derive(Debug)]
pub enum Delivery {
    /// The next record.
    Record(PacketEvent),
    /// Nothing yet.
    Idle,
    /// The subscription fell behind by more than the channel retains: this
    /// many records were skipped.
    Lagged(u64),
    /// No sender is left, and no record.
    Closed,
}

/// The number of records that the channel behind a receiver retains: the
/// receiver lags once it is further behind than that.
pub uninterp spec fn window_behind(rx: Receiver<PacketEvent>) -> nat;

/// The place of a receiver in its channel: the number of the value that it
/// takes next, as the channel counts the values sent on it, in 64 bits.
pub uninterp spec fn place_of(rx: Receiver<PacketEvent>) -> u64;

/// A place in a channel, a number of values further on. The channel counts
/// in 64 bits and starts again at zero after the last number.
pub open spec fn moved_on(place: u64, by: u64) -> u64 {
    ((place + by) % 0x1_0000_0000_0000_0000) as u64
}

/// `tokio::sync::broadcast::Sender::subscribe`: a receiver for the values
/// sent after the call, on the sender's channel, so that it shares the
/// channel's window. Nothing is said of its place: that is the number of
/// values sent so far, by whoever sent them. (The call gives up only where
/// the channel already has a quarter of `usize::MAX` receivers, which no
/// memory holds.)
#[verifier::external_body]
fn attach(tx: &Sender<PacketEvent>) -> (rx: Receiver<PacketEvent>)
    ensures
        window_behind(rx) == window_of(*tx),
{
    tx.subscribe()
}

/// `tokio::sync::broadcast::Receiver::try_recv`: the next value if one is
/// there, or why none is. Which of these comes depends on what was sent
/// meanwhile. What is said is how the receiver moves: it stays on its
/// channel; with a value it moves on by one; with a lag it moves on by the
/// number of values skipped, which is at least one; and where nothing is
/// there yet, it stays where it is.
#[verifier::external_body]
fn try_next(rx: &mut Receiver<PacketEvent>) -> (delivery: Delivery)
    ensures
        window_behind(*final(rx)) == window_behind(*old(rx)),
        delivery is Record ==> place_of(*final(rx)) == moved_on(place_of(*old(rx)), 1),
        delivery matches Delivery::Lagged(skipped) ==> skipped >= 1 && place_of(*final(rx))
            == moved_on(place_of(*old(rx)), skipped),
        delivery is Idle ==> place_of(*final(rx)) == place_of(*old(rx)),
{
    match rx.try_recv() {
        Ok(record) => Delivery::Record(record),
        Err(tokio::sync::broadcast::error::TryRecvError::Empty) => Delivery::Idle,
        Err(tokio::sync::broadcast::error::TryRecvError::Lagged(n)) => Delivery::Lagged(n),
        Err(tokio::sync::broadcast::error::TryRecvError::Closed) => Delivery::Closed,
    }
}

/// One observer's handle on the packet channel. The channel hands it the
/// records published after its creation, each at most once and in the order
/// of their publication, and skips the oldest ones where the subscription
/// falls behind by more than the channel retains.
pub struct Subscription {
    pub rx: Receiver<PacketEvent>,
}

/// Subscribes to the packet channel: gives a subscription of its own, for
/// the records published from now on, with the window of the channel.
pub fn subscribe(tx: &Sender<PacketEvent>) -> (subscription: Subscription)
    ensures
        subscription.window() == window_of(*tx),
{
    Subscription { rx: attach(tx) }
}

impl Subscription {
    /// The number of records that the channel retains for the subscription.
    pub open spec fn window(&self) -> nat {
        window_behind(self.rx)
    }

    /// The place of the subscription in its channel: the number of the
    /// record that it takes next.
    pub open spec fn place(&self) -> u64 {
        place_of(self.rx)
    }

    /// Takes the next record if one is there, without waiting. A record
    /// moves the subscription on by one; a lag moves it on by the number of
    /// records skipped, which is at least one; where nothing is there yet,
    /// the subscription stays where it is. It never changes its window.
    pub fn poll(&mut self) -> (delivery: Delivery)
        ensures
            final(self).window() == old(self).window(),
            delivery is Record ==> final(self).place() == moved_on(old(self).place(), 1),
            delivery matches Delivery::Lagged(skipped) ==> skipped >= 1 && final(self).place()
                == moved_on(old(self).place(), skipped),
            delivery is Idle ==> final(self).place() == old(self).place(),
    {
        try_next(&mut self.rx)
    }
}

} // verus!
