//! The trust-ping flow: one party pings the other and waits for the pong.
//!
//! A ping goes from one of the two parties to the other one. Any other
//! target, the sender itself and a mediator among them, is no party that the
//! sender can ping, and ends the flow before anything is emitted.
//!
//! The flow emits the record of the ping before the ping is sent, the record
//! of the mediator's acknowledgement, and the record of the pong. A wait for
//! the pong that ends without it, or with an error, still completes the
//! flow; only a ping that cannot be sent ends it with an error.
use crate::flows::{
    all_under, arrived_payload, emit, emitted, error_payload, extended, is_collaborator_error,
    mediator_name, records, ArrivedMessage, FlowError,
};
use crate::json::{
    boolean, build_object1, build_object2, json_of, no_members, object, object1, object2,
    parse_or, text, Json,
};
use crate::mediator::{party_named, AppState, AppStateView, Party};
use crate::packet_logger::{fresh_id, PacketDirection, PacketEvent, PacketEventView, PacketStep};
use crate::text::{lowercase, to_lowercase};
use serde_json::Value;
use tokio::sync::broadcast::Sender;
use vstd::prelude::*;

verus! {

/// The type of a ping message.
pub open spec fn ping_message_type() -> Seq<char> {
    "https://didcomm.org/trust-ping/2.0/ping"@
}

/// The number of seconds that the flow waits for the pong.
pub const PONG_TIMEOUT_SECS: u64 = 10;

/// The sender of a ping and the identifier that it pings.
#[derive(Debug)]
pub struct PingEndpoints {
    pub sender: Party,
    pub sender_did: String,
    pub target_did: String,
}

/// The identifier that a party pings under a lower-case alias: that of the
/// other party. No other alias names a target, not the sender's own and not
/// `mediator`.
pub open spec fn ping_target(
    state: AppStateView,
    sender: Party,
    to_lowered: Seq<char>,
) -> Option<Seq<char>> {
    match (sender, party_named(to_lowered)) {
        (Party::Alice, Some(Party::Bob)) => Some(state.did(Party::Bob)),
        (Party::Bob, Some(Party::Alice)) => Some(state.did(Party::Alice)),
        _ => None,
    }
}

/// The outcome of resolving the aliases of a ping, given in lower case: the
/// sender is looked up first, then the target. An alias that names nothing
/// is reported as it was written.
pub open spec fn ping_resolved(
    state: AppStateView,
    from_lowered: Seq<char>,
    to_lowered: Seq<char>,
    from: Seq<char>,
    to: Seq<char>,
    outcome: Result<PingEndpoints, FlowError>,
) -> bool {
    match party_named(from_lowered) {
        None => outcome matches Err(FlowError::UnknownSender(alias)) && alias@ == from,
        Some(sender) => match ping_target(state, sender, to_lowered) {
            None => outcome matches Err(FlowError::UnknownTarget(alias)) && alias@ == to,
            Some(target) => {
                &&& outcome matches Ok(ends)
                &&& ends.sender == sender
                &&& ends.sender_did@ == state.did(sender)
                &&& ends.target_did@ == target
            },
        },
    }
}

/// Resolves the aliases of a ping that are already in lower case.
pub fn resolve_ping_lowered(
    state: &AppState,
    from_lowered: &str,
    to_lowered: &str,
    from: &str,
    to: &str,
) -> (outcome: Result<PingEndpoints, FlowError>)
    ensures
        ping_resolved(state@, from_lowered@, to_lowered@, from@, to@, outcome),
{
    let sender = match Party::from_lowered(from_lowered) {
        Some(party) => party,
        None => {
            return Err(FlowError::UnknownSender(from.to_owned()));
        },
    };
    let target_did = match (sender, Party::from_lowered(to_lowered)) {
        (Party::Alice, Some(Party::Bob)) => state.did(Party::Bob).to_owned(),
        (Party::Bob, Some(Party::Alice)) => state.did(Party::Alice).to_owned(),
        _ => {
            return Err(FlowError::UnknownTarget(to.to_owned()));
        },
    };
    Ok(PingEndpoints { sender, sender_did: state.did(sender).to_owned(), target_did })
}

/// Resolves the aliases of a ping, in any case, to the sender and the
/// identifier that it pings.
pub fn resolve_ping(
    state: &AppState,
    from: &str,
    to: &str,
) -> (outcome: Result<PingEndpoints, FlowError>)
    ensures
        ping_resolved(state@, lowercase(from@), lowercase(to@), from@, to@, outcome),
{
    let from_lowered = to_lowercase(from);
    let to_lowered = to_lowercase(to);
    resolve_ping_lowered(state, from_lowered.as_str(), to_lowered.as_str(), from, to)
}

/// How far a trust-ping flow has come.
#[derive(Debug, Clone, Copy, PartialEq, Eq, Structural)]
pub enum PingStage {
    /// Waiting for the ping to be sent.
    Pinging,
    /// Waiting for the pong.
    AwaitingPong,
    /// Complete.
    Completed,
    /// Ended by an error.
    Failed,
}

/// A trust-ping flow in progress. Its records are always those of its
/// stage: see [`PingFlowView::well_formed`].
#[derive(Debug)]
pub struct PingFlow {
    stage: PingStage,
    sender: Party,
    correlation_id: String,
    sender_did: String,
    target_did: String,
    /// The records emitted so far, in the order of their steps.
    events: Vec<PacketEvent>,
}

/// What a trust-ping flow holds.
pub struct PingFlowView {
    pub stage: PingStage,
    pub sender: Party,
    pub correlation_id: Seq<char>,
    pub sender_did: Seq<char>,
    pub target_did: Seq<char>,
    pub events: Seq<PacketEventView>,
}

impl View for PingFlow {
    type V = PingFlowView;

    closed spec fn view(&self) -> PingFlowView {
        PingFlowView {
            stage: self.stage,
            sender: self.sender,
            correlation_id: self.correlation_id@,
            sender_did: self.sender_did@,
            target_did: self.target_did@,
            events: records(self.events@),
        }
    }
}

/// What the mediator answered when it took a ping.
#[derive(Debug)]
pub struct PingSent {
    pub message_hash: String,
    pub message_id: String,
}

/// The outcome of an operation that a trust-ping flow asked for. An error of
/// the collaborator comes as its text.
#[derive(Debug)]
pub enum PingReply {
    /// The ping was sent.
    Pinged(Result<PingSent, String>),
    /// The wait for the pong ended: with the pong, without it when the time
    /// was up, or with an error.
    Ponged(Result<Option<ArrivedMessage>, String>),
}

/// What a trust-ping flow asks of its caller next.
#[derive(Debug)]
pub enum PingAction {
    /// Send a signed ping that asks for a pong, and do not wait for it.
    SendPing { sender: Party, target_did: String },
    /// Wait for the answer to a message at the sender, and leave it at the
    /// mediator.
    AwaitNext { recipient: Party, message_id: String, timeout_secs: u64 },
    /// The flow is complete: its records are the result.
    Finished,
    /// The flow has ended with an error.
    Aborted(FlowError),
}

/// The step of the record at a position in a trust-ping flow.
pub open spec fn ping_step(position: int) -> PacketStep {
    if position == 0 {
        PacketStep::TrustPing
    } else if position == 1 {
        PacketStep::MediatorAck
    } else {
        PacketStep::TrustPong
    }
}

/// The payload of the ping record: the ping as it is about to be sent.
pub open spec fn ping_payload(sender_did: Seq<char>, target_did: Seq<char>) -> Json {
    Json::Object(
        Map::<Seq<char>, Json>::empty().insert("type"@, Json::Text(ping_message_type())).insert(
            "from"@,
            Json::Text(sender_did),
        ).insert("to"@, Json::Text(target_did)).insert(
            "body"@,
            object1("response_requested"@, Json::Bool(true)),
        ),
    )
}

/// The payload of the acknowledgement record.
pub open spec fn ping_sent_payload(sent: PingSent) -> Json {
    object2(
        "message_hash"@,
        Json::Text(sent.message_hash@),
        "message_id"@,
        Json::Text(sent.message_id@),
    )
}

/// The payload of the pong record for a wait that ended without the pong.
pub open spec fn pong_timeout_payload() -> Json {
    object1("status"@, Json::Text("timeout"@))
}

impl PingFlowView {
    /// The number of records that a flow has emitted when it reaches a
    /// stage, where the stage fixes it.
    pub open spec fn records_due(self) -> nat {
        match self.stage {
            PingStage::Pinging => 1,
            PingStage::AwaitingPong => 2,
            PingStage::Completed => 3,
            PingStage::Failed => 1,
        }
    }

    /// The records of the flow are those of its stage: as many as the stage
    /// asks for, each for the step of its position, well formed, and under
    /// the flow's correlation identifier.
    pub open spec fn well_formed(self) -> bool {
        &&& self.events.len() == self.records_due()
        &&& forall|i: int|
            0 <= i < self.events.len() ==> {
                &&& (#[trigger] self.events[i]).step == ping_step(i)
                &&& self.events[i].correlation_id == Some(self.correlation_id)
                &&& self.events[i].well_formed()
                &&& self.events[i].id.len() == 36
            }
    }
}

/// A trust-ping flow as it starts: from the party that the sender's alias
/// names to what the target's alias names for it, with the record of the
/// ping, asking for the ping to be sent.
pub open spec fn ping_begun(
    state: AppStateView,
    correlation_id: Seq<char>,
    from: Seq<char>,
    to: Seq<char>,
    flow: PingFlowView,
    action: PingAction,
) -> bool {
    &&& party_named(lowercase(from)) == Some(flow.sender)
    &&& ping_target(state, flow.sender, lowercase(to)) == Some(flow.target_did)
    &&& flow.stage == PingStage::Pinging
    &&& flow.correlation_id == correlation_id
    &&& flow.sender_did == state.did(flow.sender)
    &&& flow.events.len() == 1
    &&& emitted(
        flow.events[0],
        PacketDirection::Outbound,
        flow.sender_did,
        flow.target_did,
        PacketStep::TrustPing,
        ping_payload(flow.sender_did, flow.target_did),
        correlation_id,
    )
    &&& action matches PingAction::SendPing { sender, target_did }
    &&& sender == flow.sender
    &&& target_did@ == flow.target_did
}

/// How a trust-ping flow starts: with an error where an alias names
/// nothing; else as [`ping_begun`] says.
pub open spec fn ping_started(
    state: AppStateView,
    correlation_id: Seq<char>,
    from: Seq<char>,
    to: Seq<char>,
    outcome: Result<(PingFlow, PingAction), FlowError>,
) -> bool {
    match outcome {
        Err(error) => ping_resolved(state, lowercase(from), lowercase(to), from, to, Err(error)),
        Ok((flow, action)) => ping_begun(state, correlation_id, from, to, flow@, action),
    }
}

/// One step of a trust-ping flow: what the flow is and asks for after an
/// outcome, given what it was before.
pub open spec fn ping_transition(
    pre: PingFlowView,
    reply: PingReply,
    post: PingFlowView,
    action: PingAction,
) -> bool {
    match (pre.stage, reply) {
        (PingStage::Pinging, PingReply::Pinged(Ok(sent))) => {
            &&& post == PingFlowView { stage: PingStage::AwaitingPong, events: post.events, ..pre }
            &&& extended(pre.events, post.events, 1)
            &&& emitted(
                post.events[pre.events.len() as int],
                PacketDirection::Inbound,
                mediator_name(),
                pre.sender_did,
                PacketStep::MediatorAck,
                ping_sent_payload(sent),
                pre.correlation_id,
            )
            &&& action matches PingAction::AwaitNext { recipient, message_id, timeout_secs }
            &&& recipient == pre.sender
            &&& message_id@ == sent.message_id@
            &&& timeout_secs == PONG_TIMEOUT_SECS
        },
        (PingStage::Pinging, PingReply::Pinged(Err(detail))) => {
            &&& post == PingFlowView { stage: PingStage::Failed, ..pre }
            &&& action matches PingAction::Aborted(error)
            &&& is_collaborator_error(error, "send_ping"@, detail@)
        },
        (PingStage::AwaitingPong, PingReply::Ponged(outcome)) => {
            &&& post == PingFlowView { stage: PingStage::Completed, events: post.events, ..pre }
            &&& extended(pre.events, post.events, 1)
            &&& emitted(
                post.events[pre.events.len() as int],
                PacketDirection::Inbound,
                pre.target_did,
                pre.sender_did,
                PacketStep::TrustPong,
                match outcome {
                    Ok(Some(message)) => arrived_payload(message),
                    Ok(None) => pong_timeout_payload(),
                    Err(detail) => error_payload(detail@),
                },
                pre.correlation_id,
            )
            &&& action is Finished
        },
        _ => {
            &&& post == pre
            &&& action matches PingAction::Aborted(error)
            &&& error is UnexpectedReply
        },
    }
}

/// The records of a trust-ping flow stand in the order of its steps, and all
/// of them carry the flow's correlation identifier: of two records, the
/// earlier one belongs to the earlier step.
pub proof fn lemma_ping_records_follow_the_steps(flow: PingFlowView, i: int, j: int)
    requires
        flow.well_formed(),
        0 <= i < j < flow.events.len(),
    ensures
        flow.events[i].step == ping_step(i),
        flow.events[j].step == ping_step(j),
        flow.events[i].step != flow.events[j].step,
        flow.events[i].correlation_id == Some(flow.correlation_id),
        flow.events[j].correlation_id == Some(flow.correlation_id),
{
}

/// All the records of a trust-ping flow carry the flow's correlation
/// identifier.
pub proof fn lemma_ping_records_are_under_the_flow(flow: PingFlowView)
    requires
        flow.well_formed(),
    ensures
        all_under(flow.events, flow.correlation_id),
{
}

/// A step of a trust-ping flow never takes a record back, changes one or
/// moves one: the records before the step are the first records after it.
pub proof fn lemma_ping_step_keeps_records(
    pre: PingFlowView,
    reply: PingReply,
    post: PingFlowView,
    action: PingAction,
)
    requires
        ping_transition(pre, reply, post, action),
    ensures
        pre.events.len() <= post.events.len(),
        forall|i: int| 0 <= i < pre.events.len() ==> post.events[i] == pre.events[i],
        post.correlation_id == pre.correlation_id,
{
}

/// A trust-ping flow that is complete has emitted exactly three records,
/// the last of them for the pong, whether the pong came or not.
pub proof fn lemma_complete_ping_flow_has_three_records(flow: PingFlowView)
    requires
        flow.well_formed(),
        flow.stage == PingStage::Completed,
    ensures
        flow.events.len() == 3,
        flow.events[2].step == PacketStep::TrustPong,
{
}

/// A trust-ping flow whose ping is sent and whose pong never comes is
/// complete all the same. It has then emitted three records, in the order of
/// the steps and all under its correlation identifier, the last of them for
/// the pong, with the payload of a wait that ended without it.
pub proof fn lemma_ping_run_without_pong(
    start: PingFlowView,
    sent: PingSent,
    waiting: PingFlowView,
    asked: PingAction,
    done: PingFlowView,
    last: PingAction,
)
    requires
        start.well_formed(),
        start.stage == PingStage::Pinging,
        ping_transition(start, PingReply::Pinged(Ok(sent)), waiting, asked),
        ping_transition(waiting, PingReply::Ponged(Ok(None)), done, last),
    ensures
        done.stage == PingStage::Completed,
        last is Finished,
        done.events.len() == 3,
        forall|i: int|
            0 <= i < 3 ==> {
                &&& (#[trigger] done.events[i]).step == ping_step(i)
                &&& done.events[i].correlation_id == Some(start.correlation_id)
            },
        done.events[2].raw_json == pong_timeout_payload(),
        done.well_formed(),
{
}

/// Builds the payload of the ping record.
fn build_ping_payload(sender_did: &str, target_did: &str) -> (doc: Value)
    ensures
        json_of(doc) == ping_payload(sender_did@, target_did@),
{
    let mut members = no_members();
    members.insert("type".to_owned(), text("https://didcomm.org/trust-ping/2.0/ping"));
    members.insert("from".to_owned(), text(sender_did));
    members.insert("to".to_owned(), text(target_did));
    members.insert("body".to_owned(), build_object1("response_requested", boolean(true)));
    object(members)
}

impl PingFlow {
    /// The records of every flow are those of its stage.
    #[verifier::type_invariant]
    spec fn coherent(self) -> bool {
        self@.well_formed()
    }

    /// Starts a trust-ping flow between two ends that are resolved, under a
    /// given correlation identifier: emits the record of the ping, and asks
    /// for the ping to be sent.
    pub fn begin(
        tx: &Sender<PacketEvent>,
        ends: PingEndpoints,
        correlation_id: String,
    ) -> (started: (PingFlow, PingAction))
        ensures
            started.0@.stage == PingStage::Pinging,
            started.0@.sender == ends.sender,
            started.0@.correlation_id == correlation_id@,
            started.0@.sender_did == ends.sender_did@,
            started.0@.target_did == ends.target_did@,
            started.0@.events.len() == 1,
            emitted(
                started.0@.events[0],
                PacketDirection::Outbound,
                ends.sender_did@,
                ends.target_did@,
                PacketStep::TrustPing,
                ping_payload(ends.sender_did@, ends.target_did@),
                correlation_id@,
            ),
            started.0@.well_formed(),
            started.1 matches PingAction::SendPing { sender, target_did } && {
                &&& sender == ends.sender
                &&& target_did@ == ends.target_did@
            },
    {
        let mut events: Vec<PacketEvent> = Vec::new();
        emit(
            tx,
            &mut events,
            PacketDirection::Outbound,
            ends.sender_did.as_str(),
            ends.target_did.as_str(),
            PacketStep::TrustPing,
            build_ping_payload(ends.sender_did.as_str(), ends.target_did.as_str()),
            correlation_id.as_str(),
        );
        let action = PingAction::SendPing {
            sender: ends.sender,
            target_did: ends.target_did.clone(),
        };
        let flow = PingFlow {
            stage: PingStage::Pinging,
            sender: ends.sender,
            correlation_id,
            sender_did: ends.sender_did,
            target_did: ends.target_did,
            events,
        };
        (flow, action)
    }

    /// Starts a trust-ping flow under a given correlation identifier, and
    /// emits the record of the ping.
    pub fn start(
        state: &AppState,
        correlation_id: String,
        from_alias: &str,
        to_alias: &str,
    ) -> (outcome: Result<(PingFlow, PingAction), FlowError>)
        ensures
            ping_started(state@, correlation_id@, from_alias@, to_alias@, outcome),
            outcome matches Ok((flow, _)) ==> flow@.well_formed(),
    {
        match resolve_ping(state, from_alias, to_alias) {
            Ok(ends) => Ok(PingFlow::begin(&state.packet_tx, ends, correlation_id)),
            Err(error) => Err(error),
        }
    }

    /// Takes the outcome of the operation that the flow asked for, emits the
    /// record of the step that it completes, and gives the flow as it is
    /// then with what it asks for next. An outcome that the flow did not ask
    /// for changes nothing.
    pub fn advance(
        self,
        tx: &Sender<PacketEvent>,
        reply: PingReply,
    ) -> (next: (PingFlow, PingAction))
        ensures
            ping_transition(self@, reply, next.0@, next.1),
            next.0@.well_formed(),
    {
        proof {
            use_type_invariant(&self);
        }
        let PingFlow { stage, sender, correlation_id, sender_did, target_did, events } = self;
        let mut events = events;
        let mut reached = stage;
        let action = match reply {
            PingReply::Pinged(outcome) => {
                if matches!(stage, PingStage::Pinging) {
                    match outcome {
                        Err(detail) => {
                            reached = PingStage::Failed;
                            PingAction::Aborted(
                                FlowError::Collaborator { step: "send_ping".to_owned(), detail },
                            )
                        },
                        Ok(sent) => {
                            emit(
                                tx,
                                &mut events,
                                PacketDirection::Inbound,
                                "mediator",
                                sender_did.as_str(),
                                PacketStep::MediatorAck,
                                build_object2(
                                    "message_hash",
                                    text(sent.message_hash.as_str()),
                                    "message_id",
                                    text(sent.message_id.as_str()),
                                ),
                                correlation_id.as_str(),
                            );
                            reached = PingStage::AwaitingPong;
                            PingAction::AwaitNext {
                                recipient: sender,
                                message_id: sent.message_id,
                                timeout_secs: PONG_TIMEOUT_SECS,
                            }
                        },
                    }
                } else {
                    PingAction::Aborted(FlowError::UnexpectedReply)
                }
            },
            PingReply::Ponged(outcome) => {
                if matches!(stage, PingStage::AwaitingPong) {
                    let payload = match outcome {
                        Ok(Some(message)) => {
                            let fallback = build_object1("id", text(message.id.as_str()));
                            parse_or(&message.json, fallback)
                        },
                        Ok(None) => build_object1("status", text("timeout")),
                        Err(detail) => build_object1("error", text(detail.as_str())),
                    };
                    emit(
                        tx,
                        &mut events,
                        PacketDirection::Inbound,
                        target_did.as_str(),
                        sender_did.as_str(),
                        PacketStep::TrustPong,
                        payload,
                        correlation_id.as_str(),
                    );
                    reached = PingStage::Completed;
                    PingAction::Finished
                } else {
                    PingAction::Aborted(FlowError::UnexpectedReply)
                }
            },
        };
        let flow = PingFlow { stage: reached, sender, correlation_id, sender_did, target_did, events };
        (flow, action)
    }

    /// How far the flow has come.
    pub fn stage(&self) -> (stage: PingStage)
        ensures
            stage == self@.stage,
    {
        self.stage
    }

    /// The party that sends the ping.
    pub fn sender(&self) -> (party: Party)
        ensures
            party == self@.sender,
    {
        self.sender
    }

    /// The correlation identifier that all records of the flow carry.
    pub fn correlation_id(&self) -> (id: &str)
        ensures
            id@ == self@.correlation_id,
    {
        self.correlation_id.as_str()
    }

    /// The identifier of the sender.
    pub fn sender_did(&self) -> (did: &str)
        ensures
            did@ == self@.sender_did,
    {
        self.sender_did.as_str()
    }

    /// The identifier that is pinged.
    pub fn target_did(&self) -> (did: &str)
        ensures
            did@ == self@.target_did,
    {
        self.target_did.as_str()
    }

    /// The records emitted so far, in the order of their steps.
    pub fn events(&self) -> (list: &Vec<PacketEvent>)
        ensures
            records(list@) == self@.events,
            self@.well_formed(),
    {
        proof {
            use_type_invariant(self);
        }
        &self.events
    }

    /// Ends the flow and gives its records, in the order of their steps.
    pub fn into_events(self) -> (list: Vec<PacketEvent>)
        ensures
            records(list@) == self@.events,
            self@.well_formed(),
    {
        proof {
            use_type_invariant(&self);
        }
        self.events
    }
}

/// Send a trust-ping from `from_alias` to `to_alias`: starts the flow under
/// a fresh correlation identifier. An alias that names nothing ends it
/// before anything is asked of the collaborator and before any record
/// exists.
pub fn trust_ping(
    state: &AppState,
    from_alias: &str,
    to_alias: &str,
) -> (outcome: Result<(PingFlow, PingAction), FlowError>)
    ensures
        match outcome {
            Ok((flow, action)) => {
                &&& flow@.correlation_id.len() == 36
                &&& flow@.well_formed()
                &&& ping_begun(
                    state@,
                    flow@.correlation_id,
                    from_alias@,
                    to_alias@,
                    flow@,
                    action,
                )
            },
            Err(error) => ping_resolved(
                state@,
                lowercase(from_alias@),
                lowercase(to_alias@),
                from_alias@,
                to_alias@,
                Err(error),
            ),
        },
{
    let correlation_id = fresh_id();
    PingFlow::start(state, correlation_id, from_alias, to_alias)
}

} // verus!
