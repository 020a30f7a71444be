//! The send-message flow: a message goes from one party, by way of the
//! recipient's mediator, to the other party (or to the sender itself).
//!
//! The flow emits one record for each step that the message takes, six in
//! all: plaintext, encrypted payload, forward envelope, hand-over to the
//! mediator, the mediator's acknowledgement, and delivery. After the
//! acknowledgement it waits for the recipient's live pickup, for a bounded
//! time. The wait has no record of its own; the delivery record tells how it
//! ended. A wait that ends without the message, or with an error, still
//! completes the flow: only a failure to encrypt, to wrap or to hand over
//! ends it with an error, and the records emitted until then stay published.
use crate::flows::{
    all_under, arrived_payload, emit, emitted, error_payload, extended, is_collaborator_error,
    mediator_name, records, ArrivedMessage, FlowError,
};
use crate::json::{
    build_object1, build_object2, json_of, number, object1, object2, parse_or, parse_or_raw,
    parsed_or, parsed_or_raw, text, Json,
};
use crate::mediator::{party_named, AppState, AppStateView, Party};
use crate::packet_logger::{fresh_id, PacketDirection, PacketEvent, PacketEventView, PacketStep};
use crate::text::{lowercase, opt_text, to_lowercase};
use serde_json::Value;
use tokio::sync::broadcast::Sender;
use vstd::prelude::*;
use vstd::utf8::encode_utf8;

verus! {

/// The type of the message that the flow sends.
pub open spec fn basic_message_type() -> Seq<char> {
    "https://didcomm.org/basicmessage/2.0/message"@
}

/// The body of the message that carries a text: the text as its content.
pub open spec fn message_body(content: Seq<char>) -> Json {
    object1("content"@, Json::Text(content))
}

/// The number of seconds after which the message expires.
pub const MESSAGE_TTL_SECS: u64 = 300;

/// The number of seconds that the flow waits for the recipient's pickup.
pub const PICKUP_TIMEOUT_SECS: u64 = 10;

/// The two ends of a message, and the mediator that relays it.
#[derive(Debug)]
pub struct Endpoints {
    pub sender: Party,
    pub recipient: Party,
    pub sender_did: String,
    pub recipient_did: String,
    pub recipient_mediator_did: String,
}

/// The outcome of resolving two aliases, given in lower case: the sender is
/// looked up first, then the recipient. An alias that names no party is
/// reported as it was written.
pub open spec fn resolved(
    state: AppStateView,
    from_lowered: Seq<char>,
    to_lowered: Seq<char>,
    from: Seq<char>,
    to: Seq<char>,
    outcome: Result<Endpoints, FlowError>,
) -> bool {
    match party_named(from_lowered) {
        None => outcome matches Err(FlowError::UnknownSender(alias)) && alias@ == from,
        Some(sender) => match party_named(to_lowered) {
            None => outcome matches Err(FlowError::UnknownRecipient(alias)) && alias@ == to,
            Some(recipient) => {
                &&& outcome matches Ok(ends)
                &&& ends.sender == sender
                &&& ends.recipient == recipient
                &&& ends.sender_did@ == state.did(sender)
                &&& ends.recipient_did@ == state.did(recipient)
                &&& ends.recipient_mediator_did@ == state.mediator_did(recipient)
            },
        },
    }
}

/// Resolves two aliases that are already in lower case.
pub fn resolve_lowered(
    state: &AppState,
    from_lowered: &str,
    to_lowered: &str,
    from: &str,
    to: &str,
) -> (outcome: Result<Endpoints, FlowError>)
    ensures
        resolved(state@, from_lowered@, to_lowered@, from@, to@, outcome),
{
    let sender = match Party::from_lowered(from_lowered) {
        Some(party) => party,
        None => {
            return Err(FlowError::UnknownSender(from.to_owned()));
        },
    };
    let recipient = match Party::from_lowered(to_lowered) {
        Some(party) => party,
        None => {
            return Err(FlowError::UnknownRecipient(to.to_owned()));
        },
    };
    Ok(
        Endpoints {
            sender,
            recipient,
            sender_did: state.did(sender).to_owned(),
            recipient_did: state.did(recipient).to_owned(),
            recipient_mediator_did: state.mediator_did(recipient).to_owned(),
        },
    )
}

/// Resolve aliases ("alice"/"bob", in any case) to the two parties, their
/// identifiers and the recipient's mediator.
pub fn resolve_profiles(
    state: &AppState,
    from: &str,
    to: &str,
) -> (outcome: Result<Endpoints, FlowError>)
    ensures
        resolved(state@, lowercase(from@), lowercase(to@), from@, to@, outcome),
{
    let from_lowered = to_lowercase(from);
    let to_lowered = to_lowercase(to);
    resolve_lowered(state, from_lowered.as_str(), to_lowered.as_str(), from, to)
}

/// How far a send-message flow has come.
#[derive(Debug, Clone, Copy, PartialEq, Eq, Structural)]
pub enum SendStage {
    /// Waiting for the message to be built.
    Declaring,
    /// Waiting for the message to be encrypted.
    Packing,
    /// Waiting for the forward envelope.
    Wrapping,
    /// Waiting for the mediator's acknowledgement.
    Dispatching,
    /// Waiting for the recipient's pickup.
    AwaitingDelivery,
    /// Complete.
    Delivered,
    /// Ended by an error.
    Failed,
}

/// A send-message flow in progress. Its records are always those of its
/// stage: see [`SendFlowView::well_formed`].
#[derive(Debug)]
pub struct SendFlow {
    stage: SendStage,
    sender: Party,
    recipient: Party,
    correlation_id: String,
    sender_did: String,
    recipient_did: String,
    recipient_mediator_did: String,
    /// The identifier of the message, once it is built.
    msg_id: String,
    /// The records emitted so far, in the order of their steps.
    events: Vec<PacketEvent>,
}

/// What a send-message flow holds.
pub struct SendFlowView {
    pub stage: SendStage,
    pub sender: Party,
    pub recipient: Party,
    pub correlation_id: Seq<char>,
    pub sender_did: Seq<char>,
    pub recipient_did: Seq<char>,
    pub recipient_mediator_did: Seq<char>,
    pub msg_id: Seq<char>,
    pub events: Seq<PacketEventView>,
}

impl View for SendFlow {
    type V = SendFlowView;

    closed spec fn view(&self) -> SendFlowView {
        SendFlowView {
            stage: self.stage,
            sender: self.sender,
            recipient: self.recipient,
            correlation_id: self.correlation_id@,
            sender_did: self.sender_did@,
            recipient_did: self.recipient_did@,
            recipient_mediator_did: self.recipient_mediator_did@,
            msg_id: self.msg_id@,
            events: records(self.events@),
        }
    }
}

/// The outcome of an operation that a send-message flow asked for. An error
/// of the collaborator comes as its text.
#[derive(Debug)]
pub enum SendReply {
    /// The message was built: its identifier, and the message as JSON text
    /// where it could be written as such.
    Declared { id: String, json: Option<String> },
    /// The message was encrypted for the recipient: the packed text.
    Packed(Result<String, String>),
    /// The packed message was wrapped for the mediator: the envelope.
    Wrapped(Result<String, String>),
    /// The envelope was handed to the mediator: its answer, as text.
    Dispatched(Result<String, String>),
    /// The wait for the recipient's pickup ended: with the message, without
    /// it when the time was up, or with an error.
    Arrived(Result<Option<ArrivedMessage>, String>),
}

/// What a send-message flow asks of its caller next.
#[derive(Debug)]
pub enum SendAction {
    /// Build the message, of a type, between two identifiers, with a body,
    /// to expire a number of seconds after its creation.
    DeclareIntent { kind: String, to: String, from: String, body: Value, ttl_secs: u64 },
    /// Encrypt the message for the recipient, signed by the signer.
    Pack { recipient_did: String, sender_did: String, signer_did: String },
    /// Wrap the packed message in a forward envelope for the relay.
    WrapForRelay { sender: Party, packed: String, relay_did: String, recipient_did: String },
    /// Hand the envelope to the sender's mediator.
    Dispatch { sender: Party, envelope: String, message_id: String },
    /// Wait for the message at the recipient, and remove it from the
    /// mediator once it has come.
    AwaitNext { recipient: Party, message_id: String, timeout_secs: u64 },
    /// The flow is complete: its records are the result.
    Finished,
    /// The flow has ended with an error.
    Aborted(FlowError),
}

/// The step of the record at a position in a send-message flow.
pub open spec fn send_step(position: int) -> PacketStep {
    if position == 0 {
        PacketStep::PlaintextMessage
    } else if position == 1 {
        PacketStep::EncryptedPayload
    } else if position == 2 {
        PacketStep::EncryptedForward
    } else if position == 3 {
        PacketStep::MediatorSend
    } else if position == 4 {
        PacketStep::MediatorAck
    } else {
        PacketStep::MessageDelivery
    }
}

/// The payload of the plaintext record: the message, or a note that it could
/// not be written.
pub open spec fn plaintext_payload(json: Option<String>) -> Json {
    parsed_or(opt_text(json), object1("error"@, Json::Text("serialisation failed"@)))
}

/// The length of a text in bytes, as `str::len` gives it.
pub open spec fn size_in_bytes(content: Seq<char>) -> int {
    (encode_utf8(content).len() as usize) as int
}

/// The payload of the hand-over record: the message's identifier and the
/// size of the envelope in bytes.
pub open spec fn handover_payload(msg_id: Seq<char>, envelope: Seq<char>) -> Json {
    object2("msg_id"@, Json::Text(msg_id), "size_bytes"@, Json::Number(size_in_bytes(envelope)))
}

/// The payload of the acknowledgement record.
pub open spec fn stored_payload(response: Seq<char>) -> Json {
    object2("status"@, Json::Text("stored"@), "response"@, Json::Text(response))
}

/// The payload of the delivery record for a wait that ended without the
/// message.
pub open spec fn pickup_timeout_payload(msg_id: Seq<char>) -> Json {
    object2("status"@, Json::Text("timeout"@), "msg_id"@, Json::Text(msg_id))
}

impl SendFlowView {
    /// The number of records that a flow has emitted when it reaches a
    /// stage, where the stage fixes it.
    pub open spec fn records_due(self) -> Option<nat> {
        match self.stage {
            SendStage::Declaring => Some(0),
            SendStage::Packing => Some(1),
            SendStage::Wrapping => Some(2),
            SendStage::Dispatching => Some(4),
            SendStage::AwaitingDelivery => Some(5),
            SendStage::Delivered => Some(6),
            SendStage::Failed => None,
        }
    }

    /// The records of the flow are those of its stage: as many as the stage
    /// asks for, each for the step of its position, well formed, and under
    /// the flow's correlation identifier. A flow that failed has the records
    /// of the stage at which it failed: one where the message could not be
    /// encrypted, two where it could not be wrapped, four where it could not
    /// be handed over.
    pub open spec fn well_formed(self) -> bool {
        &&& match self.records_due() {
            Some(n) => self.events.len() == n,
            None => self.events.len() == 1 || self.events.len() == 2 || self.events.len() == 4,
        }
        &&& forall|i: int|
            0 <= i < self.events.len() ==> {
                &&& (#[trigger] self.events[i]).step == send_step(i)
                &&& self.events[i].correlation_id == Some(self.correlation_id)
                &&& self.events[i].well_formed()
                &&& self.events[i].id.len() == 36
            }
    }
}

/// A send-message flow as it starts: at its first stage, between the two
/// parties that the aliases name, without records, asking for the message to
/// be built.
pub open spec fn send_begun(
    state: AppStateView,
    correlation_id: Seq<char>,
    from: Seq<char>,
    to: Seq<char>,
    body: Seq<char>,
    flow: SendFlowView,
    action: SendAction,
) -> bool {
    &&& party_named(lowercase(from)) == Some(flow.sender)
    &&& party_named(lowercase(to)) == Some(flow.recipient)
    &&& flow == SendFlowView {
        stage: SendStage::Declaring,
        sender: flow.sender,
        recipient: flow.recipient,
        correlation_id,
        sender_did: state.did(flow.sender),
        recipient_did: state.did(flow.recipient),
        recipient_mediator_did: state.mediator_did(flow.recipient),
        msg_id: Seq::<char>::empty(),
        events: Seq::<PacketEventView>::empty(),
    }
    &&& action matches SendAction::DeclareIntent {
        kind,
        to: target,
        from: origin,
        body: document,
        ttl_secs,
    }
    &&& kind@ == basic_message_type()
    &&& target@ == flow.recipient_did
    &&& origin@ == flow.sender_did
    &&& json_of(document) == message_body(body)
    &&& ttl_secs == MESSAGE_TTL_SECS
}

/// How a send-message flow starts: with an error where an alias names no
/// party; else as [`send_begun`] says.
pub open spec fn send_started(
    state: AppStateView,
    correlation_id: Seq<char>,
    from: Seq<char>,
    to: Seq<char>,
    body: Seq<char>,
    outcome: Result<(SendFlow, SendAction), FlowError>,
) -> bool {
    match outcome {
        Err(error) => resolved(state, lowercase(from), lowercase(to), from, to, Err(error)),
        Ok((flow, action)) => send_begun(state, correlation_id, from, to, body, flow@, action),
    }
}

/// One step of a send-message flow: what the flow is and asks for after an
/// outcome, given what it was before.
pub open spec fn send_transition(
    pre: SendFlowView,
    reply: SendReply,
    post: SendFlowView,
    action: SendAction,
) -> bool {
    match (pre.stage, reply) {
        (SendStage::Declaring, SendReply::Declared { id, json }) => {
            &&& post == SendFlowView {
                stage: SendStage::Packing,
                msg_id: id@,
                events: post.events,
                ..pre
            }
            &&& extended(pre.events, post.events, 1)
            &&& emitted(
                post.events[pre.events.len() as int],
                PacketDirection::Outbound,
                pre.sender_did,
                pre.recipient_did,
                PacketStep::PlaintextMessage,
                plaintext_payload(json),
                pre.correlation_id,
            )
            &&& action matches SendAction::Pack { recipient_did, sender_did, signer_did }
            &&& recipient_did@ == pre.recipient_did
            &&& sender_did@ == pre.sender_did
            &&& signer_did@ == pre.sender_did
        },
        (SendStage::Packing, SendReply::Packed(Ok(packed))) => {
            &&& post == SendFlowView { stage: SendStage::Wrapping, events: post.events, ..pre }
            &&& extended(pre.events, post.events, 1)
            &&& emitted(
                post.events[pre.events.len() as int],
                PacketDirection::Outbound,
                pre.sender_did,
                pre.recipient_did,
                PacketStep::EncryptedPayload,
                parsed_or_raw(packed@),
                pre.correlation_id,
            )
            &&& action matches SendAction::WrapForRelay {
                sender,
                packed: inner,
                relay_did,
                recipient_did,
            }
            &&& sender == pre.sender
            &&& inner@ == packed@
            &&& relay_did@ == pre.recipient_mediator_did
            &&& recipient_did@ == pre.recipient_did
        },
        (SendStage::Packing, SendReply::Packed(Err(detail))) => {
            &&& post == SendFlowView { stage: SendStage::Failed, ..pre }
            &&& action matches SendAction::Aborted(error)
            &&& is_collaborator_error(error, "pack_encrypted"@, detail@)
        },
        (SendStage::Wrapping, SendReply::Wrapped(Ok(envelope))) => {
            &&& post == SendFlowView { stage: SendStage::Dispatching, events: post.events, ..pre }
            &&& extended(pre.events, post.events, 2)
            &&& emitted(
                post.events[pre.events.len() as int],
                PacketDirection::Outbound,
                pre.sender_did,
                pre.recipient_mediator_did,
                PacketStep::EncryptedForward,
                parsed_or_raw(envelope@),
                pre.correlation_id,
            )
            &&& emitted(
                post.events[pre.events.len() + 1 as int],
                PacketDirection::Outbound,
                pre.sender_did,
                mediator_name(),
                PacketStep::MediatorSend,
                handover_payload(pre.msg_id, envelope@),
                pre.correlation_id,
            )
            &&& action matches SendAction::Dispatch { sender, envelope: bytes, message_id }
            &&& sender == pre.sender
            &&& bytes@ == envelope@
            &&& message_id@ == pre.msg_id
        },
        (SendStage::Wrapping, SendReply::Wrapped(Err(detail))) => {
            &&& post == SendFlowView { stage: SendStage::Failed, ..pre }
            &&& action matches SendAction::Aborted(error)
            &&& is_collaborator_error(error, "forward_message"@, detail@)
        },
        (SendStage::Dispatching, SendReply::Dispatched(Ok(response))) => {
            &&& post == SendFlowView {
                stage: SendStage::AwaitingDelivery,
                events: post.events,
                ..pre
            }
            &&& extended(pre.events, post.events, 1)
            &&& emitted(
                post.events[pre.events.len() as int],
                PacketDirection::Inbound,
                mediator_name(),
                pre.sender_did,
                PacketStep::MediatorAck,
                stored_payload(response@),
                pre.correlation_id,
            )
            &&& action matches SendAction::AwaitNext { recipient, message_id, timeout_secs }
            &&& recipient == pre.recipient
            &&& message_id@ == pre.msg_id
            &&& timeout_secs == PICKUP_TIMEOUT_SECS
        },
        (SendStage::Dispatching, SendReply::Dispatched(Err(detail))) => {
            &&& post == SendFlowView { stage: SendStage::Failed, ..pre }
            &&& action matches SendAction::Aborted(error)
            &&& is_collaborator_error(error, "send_message"@, detail@)
        },
        (SendStage::AwaitingDelivery, SendReply::Arrived(outcome)) => {
            &&& post == SendFlowView { stage: SendStage::Delivered, events: post.events, ..pre }
            &&& extended(pre.events, post.events, 1)
            &&& match outcome {
                Ok(Some(message)) => emitted(
                    post.events[pre.events.len() as int],
                    PacketDirection::Inbound,
                    pre.sender_did,
                    pre.recipient_did,
                    PacketStep::MessageDelivery,
                    arrived_payload(message),
                    pre.correlation_id,
                ),
                Ok(None) => emitted(
                    post.events[pre.events.len() as int],
                    PacketDirection::Inbound,
                    mediator_name(),
                    pre.recipient_did,
                    PacketStep::MessageDelivery,
                    pickup_timeout_payload(pre.msg_id),
                    pre.correlation_id,
                ),
                Err(detail) => emitted(
                    post.events[pre.events.len() as int],
                    PacketDirection::Inbound,
                    mediator_name(),
                    pre.recipient_did,
                    PacketStep::MessageDelivery,
                    error_payload(detail@),
                    pre.correlation_id,
                ),
            }
            &&& action is Finished
        },
        _ => {
            &&& post == pre
            &&& action matches SendAction::Aborted(error)
            &&& error is UnexpectedReply
        },
    }
}

/// The records of a send-message flow stand in the order of its steps, and
/// all of them carry the flow's correlation identifier: of two records, the
/// earlier one belongs to the earlier step.
pub proof fn lemma_send_records_follow_the_steps(flow: SendFlowView, i: int, j: int)
    requires
        flow.well_formed(),
        0 <= i < j < flow.events.len(),
    ensures
        flow.events[i].step == send_step(i),
        flow.events[j].step == send_step(j),
        flow.events[i].step != flow.events[j].step,
        flow.events[i].correlation_id == Some(flow.correlation_id),
        flow.events[j].correlation_id == Some(flow.correlation_id),
{
}

/// All the records of a send-message flow carry the flow's correlation
/// identifier.
pub proof fn lemma_send_records_are_under_the_flow(flow: SendFlowView)
    requires
        flow.well_formed(),
    ensures
        all_under(flow.events, flow.correlation_id),
{
}

/// A step of a send-message flow never takes a record back, changes one or
/// moves one: the records before the step are the first records after it.
pub proof fn lemma_send_step_keeps_records(
    pre: SendFlowView,
    reply: SendReply,
    post: SendFlowView,
    action: SendAction,
)
    requires
        send_transition(pre, reply, post, action),
    ensures
        pre.events.len() <= post.events.len(),
        forall|i: int| 0 <= i < pre.events.len() ==> post.events[i] == pre.events[i],
        post.correlation_id == pre.correlation_id,
{
}

/// A send-message flow that is complete has emitted exactly six records, the
/// last of them for the delivery.
pub proof fn lemma_complete_send_flow_has_six_records(flow: SendFlowView)
    requires
        flow.well_formed(),
        flow.stage == SendStage::Delivered,
    ensures
        flow.events.len() == 6,
        flow.events[5].step == PacketStep::MessageDelivery,
{
}

/// A send-message flow in which every operation succeeds, and the wait for
/// the pickup ends in any way, is complete after five outcomes. It has then
/// emitted six records, in the order of the steps and all under its
/// correlation identifier, the last of them for the delivery.
pub proof fn lemma_successful_send_run(
    start: SendFlowView,
    replies: Seq<SendReply>,
    flows: Seq<SendFlowView>,
    actions: Seq<SendAction>,
)
    requires
        start.stage == SendStage::Declaring,
        start.events.len() == 0,
        replies.len() == 5,
        flows.len() == 5,
        actions.len() == 5,
        replies[0] is Declared,
        replies[1] matches SendReply::Packed(Ok(_)),
        replies[2] matches SendReply::Wrapped(Ok(_)),
        replies[3] matches SendReply::Dispatched(Ok(_)),
        replies[4] is Arrived,
        send_transition(start, replies[0], flows[0], actions[0]),
        forall|k: int|
            1 <= k < 5 ==> send_transition(flows[k - 1], replies[k], #[trigger] flows[k], actions[k]),
    ensures
        flows[4].stage == SendStage::Delivered,
        actions[4] is Finished,
        flows[4].events.len() == 6,
        flows[4].correlation_id == start.correlation_id,
        forall|i: int|
            0 <= i < 6 ==> {
                &&& (#[trigger] flows[4].events[i]).step == send_step(i)
                &&& flows[4].events[i].correlation_id == Some(start.correlation_id)
                &&& flows[4].events[i].well_formed()
            },
        flows[4].well_formed(),
{
    assert(send_transition(flows[0], replies[1], flows[1], actions[1]));
    assert(send_transition(flows[1], replies[2], flows[2], actions[2]));
    assert(send_transition(flows[2], replies[3], flows[3], actions[3]));
    assert(send_transition(flows[3], replies[4], flows[4], actions[4]));
}

impl SendFlow {
    /// The records of every flow are those of its stage.
    #[verifier::type_invariant]
    spec fn coherent(self) -> bool {
        self@.well_formed()
    }

    /// Starts a send-message flow between two ends that are resolved, under
    /// a given correlation identifier: the flow stands at its first stage,
    /// without records, and asks for the message to be built.
    pub fn begin(
        ends: Endpoints,
        correlation_id: String,
        body_text: &str,
    ) -> (started: (SendFlow, SendAction))
        ensures
            started.0@ == (SendFlowView {
                stage: SendStage::Declaring,
                sender: ends.sender,
                recipient: ends.recipient,
                correlation_id: correlation_id@,
                sender_did: ends.sender_did@,
                recipient_did: ends.recipient_did@,
                recipient_mediator_did: ends.recipient_mediator_did@,
                msg_id: Seq::<char>::empty(),
                events: Seq::<PacketEventView>::empty(),
            }),
            started.0@.well_formed(),
            started.1 matches SendAction::DeclareIntent { kind, to, from, body, ttl_secs } && {
                &&& kind@ == basic_message_type()
                &&& to@ == ends.recipient_did@
                &&& from@ == ends.sender_did@
                &&& json_of(body) == message_body(body_text@)
                &&& ttl_secs == MESSAGE_TTL_SECS
            },
    {
        let action = SendAction::DeclareIntent {
            kind: "https://didcomm.org/basicmessage/2.0/message".to_owned(),
            to: ends.recipient_did.clone(),
            from: ends.sender_did.clone(),
            body: build_object1("content", text(body_text)),
            ttl_secs: MESSAGE_TTL_SECS,
        };
        let events: Vec<PacketEvent> = Vec::new();
        proof {
            assert(records(events@) =~= Seq::<PacketEventView>::empty());
        }
        let flow = SendFlow {
            stage: SendStage::Declaring,
            sender: ends.sender,
            recipient: ends.recipient,
            correlation_id,
            sender_did: ends.sender_did,
            recipient_did: ends.recipient_did,
            recipient_mediator_did: ends.recipient_mediator_did,
            msg_id: String::new(),
            events,
        };
        (flow, action)
    }

    /// Starts a send-message flow under a given correlation identifier.
    pub fn start(
        state: &AppState,
        correlation_id: String,
        from_alias: &str,
        to_alias: &str,
        body_text: &str,
    ) -> (outcome: Result<(SendFlow, SendAction), FlowError>)
        ensures
            send_started(state@, correlation_id@, from_alias@, to_alias@, body_text@, outcome),
            outcome matches Ok((flow, _)) ==> flow@.well_formed(),
    {
        match resolve_profiles(state, from_alias, to_alias) {
            Ok(ends) => Ok(SendFlow::begin(ends, correlation_id, body_text)),
            Err(error) => Err(error),
        }
    }

    /// Takes the outcome of the operation that the flow asked for, emits the
    /// records of the steps that it completes, and gives the flow as it is
    /// then with what it asks for next. An outcome that the flow did not ask
    /// for changes nothing.
    pub fn advance(
        self,
        tx: &Sender<PacketEvent>,
        reply: SendReply,
    ) -> (next: (SendFlow, SendAction))
        ensures
            send_transition(self@, reply, next.0@, next.1),
            next.0@.well_formed(),
    {
        proof {
            use_type_invariant(&self);
        }
        let SendFlow {
            stage,
            sender,
            recipient,
            correlation_id,
            sender_did,
            recipient_did,
            recipient_mediator_did,
            msg_id,
            events,
        } = self;
        let mut events = events;
        let mut msg_id = msg_id;
        let mut reached = stage;
        let action = match reply {
            SendReply::Declared { id, json } => {
                if matches!(stage, SendStage::Declaring) {
                    let payload = parse_or(
                        &json,
                        build_object1("error", text("serialisation failed")),
                    );
                    emit(
                        tx,
                        &mut events,
                        PacketDirection::Outbound,
                        sender_did.as_str(),
                        recipient_did.as_str(),
                        PacketStep::PlaintextMessage,
                        payload,
                        correlation_id.as_str(),
                    );
                    msg_id = id;
                    reached = SendStage::Packing;
                    SendAction::Pack {
                        recipient_did: recipient_did.clone(),
                        sender_did: sender_did.clone(),
                        signer_did: sender_did.clone(),
                    }
                } else {
                    SendAction::Aborted(FlowError::UnexpectedReply)
                }
            },
            SendReply::Packed(outcome) => {
                if matches!(stage, SendStage::Packing) {
                    match outcome {
                        Err(detail) => {
                            reached = SendStage::Failed;
                            failed("pack_encrypted", detail)
                        },
                        Ok(packed) => {
                            emit(
                                tx,
                                &mut events,
                                PacketDirection::Outbound,
                                sender_did.as_str(),
                                recipient_did.as_str(),
                                PacketStep::EncryptedPayload,
                                parse_or_raw(packed.as_str()),
                                correlation_id.as_str(),
                            );
                            reached = SendStage::Wrapping;
                            SendAction::WrapForRelay {
                                sender,
                                packed,
                                relay_did: recipient_mediator_did.clone(),
                                recipient_did: recipient_did.clone(),
                            }
                        },
                    }
                } else {
                    SendAction::Aborted(FlowError::UnexpectedReply)
                }
            },
            SendReply::Wrapped(outcome) => {
                if matches!(stage, SendStage::Wrapping) {
                    match outcome {
                        Err(detail) => {
                            reached = SendStage::Failed;
                            failed("forward_message", detail)
                        },
                        Ok(envelope) => {
                            emit(
                                tx,
                                &mut events,
                                PacketDirection::Outbound,
                                sender_did.as_str(),
                                recipient_mediator_did.as_str(),
                                PacketStep::EncryptedForward,
                                parse_or_raw(envelope.as_str()),
                                correlation_id.as_str(),
                            );
                            let size = envelope.as_str().len();
                            emit(
                                tx,
                                &mut events,
                                PacketDirection::Outbound,
                                sender_did.as_str(),
                                "mediator",
                                PacketStep::MediatorSend,
                                build_object2(
                                    "msg_id",
                                    text(msg_id.as_str()),
                                    "size_bytes",
                                    number(size as u64),
                                ),
                                correlation_id.as_str(),
                            );
                            reached = SendStage::Dispatching;
                            SendAction::Dispatch { sender, envelope, message_id: msg_id.clone() }
                        },
                    }
                } else {
                    SendAction::Aborted(FlowError::UnexpectedReply)
                }
            },
            SendReply::Dispatched(outcome) => {
                if matches!(stage, SendStage::Dispatching) {
                    match outcome {
                        Err(detail) => {
                            reached = SendStage::Failed;
                            failed("send_message", detail)
                        },
                        Ok(response) => {
                            emit(
                                tx,
                                &mut events,
                                PacketDirection::Inbound,
                                "mediator",
                                sender_did.as_str(),
                                PacketStep::MediatorAck,
                                build_object2(
                                    "status",
                                    text("stored"),
                                    "response",
                                    text(response.as_str()),
                                ),
                                correlation_id.as_str(),
                            );
                            reached = SendStage::AwaitingDelivery;
                            SendAction::AwaitNext {
                                recipient,
                                message_id: msg_id.clone(),
                                timeout_secs: PICKUP_TIMEOUT_SECS,
                            }
                        },
                    }
                } else {
                    SendAction::Aborted(FlowError::UnexpectedReply)
                }
            },
            SendReply::Arrived(outcome) => {
                if matches!(stage, SendStage::AwaitingDelivery) {
                    match outcome {
                        Ok(Some(message)) => {
                            let fallback = build_object1("id", text(message.id.as_str()));
                            emit(
                                tx,
                                &mut events,
                                PacketDirection::Inbound,
                                sender_did.as_str(),
                                recipient_did.as_str(),
                                PacketStep::MessageDelivery,
                                parse_or(&message.json, fallback),
                                correlation_id.as_str(),
                            );
                        },
                        Ok(None) => {
                            emit(
                                tx,
                                &mut events,
                                PacketDirection::Inbound,
                                "mediator",
                                recipient_did.as_str(),
                                PacketStep::MessageDelivery,
                                build_object2(
                                    "status",
                                    text("timeout"),
                                    "msg_id",
                                    text(msg_id.as_str()),
                                ),
                                correlation_id.as_str(),
                            );
                        },
                        Err(detail) => {
                            emit(
                                tx,
                                &mut events,
                                PacketDirection::Inbound,
                                "mediator",
                                recipient_did.as_str(),
                                PacketStep::MessageDelivery,
                                build_object1("error", text(detail.as_str())),
                                correlation_id.as_str(),
                            );
                        },
                    }
                    reached = SendStage::Delivered;
                    SendAction::Finished
                } else {
                    SendAction::Aborted(FlowError::UnexpectedReply)
                }
            },
        };
        let flow = SendFlow {
            stage: reached,
            sender,
            recipient,
            correlation_id,
            sender_did,
            recipient_did,
            recipient_mediator_did,
            msg_id,
            events,
        };
        (flow, action)
    }

    /// How far the flow has come.
    pub fn stage(&self) -> (stage: SendStage)
        ensures
            stage == self@.stage,
    {
        self.stage
    }

    /// The party that sends the message.
    pub fn sender(&self) -> (party: Party)
        ensures
            party == self@.sender,
    {
        self.sender
    }

    /// The party that the message is for.
    pub fn recipient(&self) -> (party: Party)
        ensures
            party == self@.recipient,
    {
        self.recipient
    }

    /// The correlation identifier that all records of the flow carry.
    pub fn correlation_id(&self) -> (id: &str)
        ensures
            id@ == self@.correlation_id,
    {
        self.correlation_id.as_str()
    }

    /// The identifier of the sender.
    pub fn sender_did(&self) -> (did: &str)
        ensures
            did@ == self@.sender_did,
    {
        self.sender_did.as_str()
    }

    /// The identifier of the recipient.
    pub fn recipient_did(&self) -> (did: &str)
        ensures
            did@ == self@.recipient_did,
    {
        self.recipient_did.as_str()
    }

    /// The identifier of the recipient's mediator.
    pub fn recipient_mediator_did(&self) -> (did: &str)
        ensures
            did@ == self@.recipient_mediator_did,
    {
        self.recipient_mediator_did.as_str()
    }

    /// The identifier of the message; empty until the message is built.
    pub fn msg_id(&self) -> (id: &str)
        ensures
            id@ == self@.msg_id,
    {
        self.msg_id.as_str()
    }

    /// The records emitted so far, in the order of their steps.
    pub fn events(&self) -> (list: &Vec<PacketEvent>)
        ensures
            records(list@) == self@.events,
            self@.well_formed(),
    {
        proof {
            use_type_invariant(self);
        }
        &self.events
    }

    /// Ends the flow and gives its records, in the order of their steps.
    pub fn into_events(self) -> (list: Vec<PacketEvent>)
        ensures
            records(list@) == self@.events,
            self@.well_formed(),
    {
        proof {
            use_type_invariant(&self);
        }
        self.events
    }
}

/// The action that ends a flow with the error of an operation of the
/// collaborator.
fn failed(step: &str, detail: String) -> (action: SendAction)
    ensures
        action matches SendAction::Aborted(error) && is_collaborator_error(error, step@, detail@),
{
    SendAction::Aborted(FlowError::Collaborator { step: step.to_owned(), detail })
}

/// Starts the send flow for a message from one party to another, under a
/// fresh correlation identifier. An alias that names no party ends it before
/// anything is asked of the collaborator and before any record exists.
pub fn send_message(
    state: &AppState,
    from_alias: &str,
    to_alias: &str,
    body_text: &str,
) -> (outcome: Result<(SendFlow, SendAction), FlowError>)
    ensures
        match outcome {
            Ok((flow, action)) => {
                &&& flow@.correlation_id.len() == 36
                &&& flow@.well_formed()
                &&& send_begun(
                    state@,
                    flow@.correlation_id,
                    from_alias@,
                    to_alias@,
                    body_text@,
                    flow@,
                    action,
                )
            },
            Err(error) => resolved(
                state@,
                lowercase(from_alias@),
                lowercase(to_alias@),
                from_alias@,
                to_alias@,
                Err(error),
            ),
        },
{
    let correlation_id = fresh_id();
    SendFlow::start(state, correlation_id, from_alias, to_alias, body_text)
}

} // verus!
