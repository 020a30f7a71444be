//! The message flows. A flow runs a fixed sequence of operations against the
//! messaging collaborator and emits one record for each step.
//!
//! The operations themselves are the caller's: a flow says which operation
//! it asks for next, the caller performs it, waits for it as long as it
//! takes, and hands its outcome back. The flow then emits the records of
//! the steps that the outcome completes, publishing each one on the packet
//! channel before it puts it at the end of its own list, and asks for the
//! next operation. The list of a flow is therefore the list of the records
//! that the flow has published, in the order of their publication.
pub mod send_message;
pub mod trust_ping;

use crate::json::{object1, parsed_or, Json};
use crate::text::opt_text;
use crate::packet_logger::{
    fresh_record, publish, PacketDirection, PacketEvent, PacketEventView, PacketStep,
};
use serde_json::Value;
use tokio::sync::broadcast::Sender;
use vstd::prelude::*;
use vstd::string::StringExecFns;

verus! {

/// Why a flow did not go on.
#[derive(Debug)]
pub enum FlowError {
    /// The sender's alias names no party.
    UnknownSender(String),
    /// The recipient's alias names no party.
    UnknownRecipient(String),
    /// The alias of a ping's target names nothing that the sender can ping.
    UnknownTarget(String),
    /// An operation of the collaborator failed.
    Collaborator { step: String, detail: String },
    /// An outcome was handed to a flow that had not asked for it.
    UnexpectedReply,
}

impl FlowError {
    /// Whether the error is one of the input, found before any operation.
    pub open spec fn is_validation(self) -> bool {
        self is UnknownSender || self is UnknownRecipient || self is UnknownTarget
    }

    /// The message of an error.
    pub open spec fn message_text(self) -> Seq<char> {
        match self {
            FlowError::UnknownSender(alias) => "Unknown sender: "@ + alias@,
            FlowError::UnknownRecipient(alias) => "Unknown recipient: "@ + alias@,
            FlowError::UnknownTarget(alias) => "Unknown ping target: "@ + alias@,
            FlowError::Collaborator { step, detail } => step@ + " failed: "@ + detail@,
            FlowError::UnexpectedReply => "unexpected reply"@,
        }
    }

    /// Whether the error is one of the input, found before any operation.
    pub fn validation(&self) -> (yes: bool)
        ensures
            yes == self.is_validation(),
    {
        match self {
            FlowError::UnknownSender(_) => true,
            FlowError::UnknownRecipient(_) => true,
            FlowError::UnknownTarget(_) => true,
            FlowError::Collaborator { .. } => false,
            FlowError::UnexpectedReply => false,
        }
    }

    /// The message of an error.
    pub fn message(&self) -> (out: String)
        ensures
            out@ == self.message_text(),
    {
        match self {
            FlowError::UnknownSender(alias) => "Unknown sender: ".to_owned().concat(
                alias.as_str(),
            ),
            FlowError::UnknownRecipient(alias) => "Unknown recipient: ".to_owned().concat(
                alias.as_str(),
            ),
            FlowError::UnknownTarget(alias) => "Unknown ping target: ".to_owned().concat(
                alias.as_str(),
            ),
            FlowError::Collaborator { step, detail } => step.clone().concat(" failed: ").concat(
                detail.as_str(),
            ),
            FlowError::UnexpectedReply => "unexpected reply".to_owned(),
        }
    }
}

/// The name under which the mediator stands in a record.
pub open spec fn mediator_name() -> Seq<char> {
    "mediator"@
}

/// What a list of records holds.
pub open spec fn records(events: Seq<PacketEvent>) -> Seq<PacketEventView> {
    events.map_values(|e: PacketEvent| e@)
}

/// A record is the one that a flow emits for a step: created for it, with a
/// fresh identifier, under the flow's correlation identifier.
pub open spec fn emitted(
    record: PacketEventView,
    direction: PacketDirection,
    from: Seq<char>,
    to: Seq<char>,
    step: PacketStep,
    payload: Json,
    correlation_id: Seq<char>,
) -> bool {
    &&& record == fresh_record(
        record.id,
        record.timestamp,
        direction,
        from,
        to,
        step,
        payload,
        Some(correlation_id),
    )
    &&& record.id.len() == 36
}

/// A list of records is another with a number of records after it.
pub open spec fn extended(before: Seq<PacketEventView>, after: Seq<PacketEventView>, by: nat) -> bool {
    &&& after.len() == before.len() + by
    &&& forall|i: int| 0 <= i < before.len() ==> after[i] == before[i]
}

/// All the records of a list carry one correlation identifier.
pub open spec fn all_under(events: Seq<PacketEventView>, correlation_id: Seq<char>) -> bool {
    forall|i: int|
        0 <= i < events.len() ==> (#[trigger] events[i]).correlation_id == Some(correlation_id)
}

/// Records that share a correlation identifier come from one flow: of two
/// lists of records under different correlation identifiers, no record of
/// the one carries the identifier of a record of the other.
pub proof fn lemma_flows_keep_their_records_apart(
    ones: Seq<PacketEventView>,
    one: Seq<char>,
    others: Seq<PacketEventView>,
    other: Seq<char>,
    i: int,
    j: int,
)
    requires
        all_under(ones, one),
        all_under(others, other),
        one != other,
        0 <= i < ones.len(),
        0 <= j < others.len(),
    ensures
        ones[i].correlation_id != others[j].correlation_id,
{
}

/// Creates the record of a step, publishes it, and puts it at the end of
/// the records of the flow.
pub(crate) fn emit(
    tx: &Sender<PacketEvent>,
    events: &mut Vec<PacketEvent>,
    direction: PacketDirection,
    from: &str,
    to: &str,
    step: PacketStep,
    payload: Value,
    correlation_id: &str,
)
    ensures
        extended(records(old(events)@), records(final(events)@), 1),
        emitted(
            records(final(events)@).last(),
            direction,
            from@,
            to@,
            step,
            crate::json::json_of(payload),
            correlation_id@,
        ),
{
    let record = PacketEvent::new(
        direction,
        from,
        to,
        step,
        payload,
        Some(correlation_id.to_owned()),
    );
    let _ = publish(tx, &record);
    events.push(record);
}

/// A message that arrived by live pickup.
#[derive(Debug)]
pub struct ArrivedMessage {
    /// The identifier of the message.
    pub id: String,
    /// The message as JSON text, where it could be written as such.
    pub json: Option<String>,
}

/// The payload of the record for a message that arrived: the message, or
/// at least its identifier.
pub open spec fn arrived_payload(message: ArrivedMessage) -> Json {
    parsed_or(opt_text(message.json), object1("id"@, Json::Text(message.id@)))
}

/// The payload of a record for an operation that failed softly.
pub open spec fn error_payload(detail: Seq<char>) -> Json {
    object1("error"@, Json::Text(detail))
}

/// The error of an operation of the collaborator.
pub open spec fn is_collaborator_error(error: FlowError, step: Seq<char>, detail: Seq<char>) -> bool {
    error matches FlowError::Collaborator { step: s, detail: d } && s@ == step && d@ == detail
}

} // verus!
