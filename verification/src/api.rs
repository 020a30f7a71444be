//! The control surface: what each operation answers, and the live stream.
//!
//! An answer is a status code and a JSON body. The caller performs the
//! operations that a flow asks for, and sends the answer.
use crate::flows::send_message::{send_begun, SendAction, SendFlow};
use crate::flows::trust_ping::{ping_begun, ping_target, PingAction, PingFlow};
use crate::flows::{records, FlowError};
use crate::identity::{identity_wire_form, IdentityInfo};
use crate::json::{
    array, build_object1, build_object2, contents, json_of, no_members, null, number, object,
    object1, object2, rendered, text, Json,
};
use crate::mediator::{party_named, AppState, Party};
use crate::packet_logger::{
    fresh_record, moved_on, publish, subscribe, text_or_null, window_of, wire_form, with_optional,
    Delivery, PacketDirection, PacketEvent, PacketEventView, PacketStep, Subscription,
};
use crate::text::{
    blank, lemma_trimmed_is_empty_iff_blank, lowercase, opt_str, opt_text, to_lowercase, trim,
};
use serde_json::Value;
use vstd::prelude::*;
use vstd::string::StringExecFns;

verus! {

/// The status of an answer to an operation that succeeded.
pub const STATUS_OK: u16 = 200;

/// The status of an answer to a request that was at fault.
pub const STATUS_BAD_REQUEST: u16 = 400;

/// The status of an answer to an operation that failed on the server's side.
pub const STATUS_INTERNAL_SERVER_ERROR: u16 = 500;

/// The number of seconds between two keep-alive signals of a live stream.
pub const KEEP_ALIVE_SECS: u64 = 15;

/// The largest number of stored messages that one fetch asks for.
pub const FETCH_LIMIT: usize = 50;

/// A request to send a message.
#[derive(Debug)]
pub struct SendMessageRequest {
    pub from: String,
    pub to: String,
    pub body: String,
}

/// A request to send a trust ping.
#[derive(Debug)]
pub struct PingRequest {
    pub from: String,
    pub to: String,
}

/// The identities of the two parties.
#[derive(Debug)]
pub struct IdentitiesResponse {
    pub alice: IdentityInfo,
    pub bob: IdentityInfo,
}

/// The body of an answer that reports an error.
#[derive(Debug)]
pub struct ApiError {
    pub error: String,
    /// The operation that failed, where one did.
    pub step: Option<String>,
}

/// An answer: a status code and a JSON body.
#[derive(Debug)]
pub struct ApiResponse {
    pub status: u16,
    pub body: Value,
}

/// The body of an answer that reports an error: the message and, where
/// there is one, the operation that failed.
pub open spec fn error_body(error: Seq<char>, step: Option<Seq<char>>) -> Json {
    Json::Object(
        with_optional(
            Map::<Seq<char>, Json>::empty().insert("error"@, Json::Text(error)),
            "step"@,
            step,
        ),
    )
}

impl ApiError {
    /// The error as a JSON document.
    pub fn to_json(&self) -> (doc: Value)
        ensures
            json_of(doc) == error_body(self.error@, opt_text(self.step)),
    {
        let mut members = no_members();
        members.insert("error".to_owned(), text(self.error.as_str()));
        match &self.step {
            Some(step) => {
                members.insert("step".to_owned(), text(step.as_str()));
            },
            None => {},
        }
        object(members)
    }
}

/// The answer that reports an error.
pub fn api_error(status: u16, msg: &str, step: Option<&str>) -> (response: ApiResponse)
    ensures
        response.status == status,
        json_of(response.body) == error_body(msg@, opt_str(step)),
{
    let body = ApiError {
        error: msg.to_owned(),
        step: match step {
            Some(s) => Some(s.to_owned()),
            None => None,
        },
    };
    ApiResponse { status, body: body.to_json() }
}

/// The identities of the two parties.
pub fn get_identities(state: &AppState) -> (response: IdentitiesResponse)
    ensures
        response.alice@ == state@.alice_info,
        response.bob@ == state@.bob_info,
{
    IdentitiesResponse { alice: state.alice_info.clone(), bob: state.bob_info.clone() }
}

/// The answer to a flow that failed: an error of the input is the request's
/// fault and names no operation; any other error is the server's and names
/// the operation.
pub open spec fn failure_answer(operation: Seq<char>, error: FlowError, response: ApiResponse) -> bool {
    if error.is_validation() {
        &&& response.status == STATUS_BAD_REQUEST
        &&& json_of(response.body) == error_body(error.message_text(), None)
    } else {
        &&& response.status == STATUS_INTERNAL_SERVER_ERROR
        &&& json_of(response.body) == error_body(error.message_text(), Some(operation))
    }
}

/// The answer to a flow that failed.
pub fn flow_failure(operation: &str, error: &FlowError) -> (response: ApiResponse)
    ensures
        failure_answer(operation@, *error, response),
{
    let message = error.message();
    if error.validation() {
        api_error(STATUS_BAD_REQUEST, message.as_str(), None)
    } else {
        api_error(STATUS_INTERNAL_SERVER_ERROR, message.as_str(), Some(operation))
    }
}

/// The correlation identifier of the first of a list of records.
pub open spec fn first_correlation(events: Seq<PacketEventView>) -> Option<Seq<char>> {
    if events.len() > 0 {
        events[0].correlation_id
    } else {
        None
    }
}

/// The body of the answer to a flow that completed: a status word, the
/// number of records, and their correlation identifier.
pub open spec fn summary_body(status: Seq<char>, events: Seq<PacketEventView>) -> Json {
    Json::Object(
        Map::<Seq<char>, Json>::empty().insert("status"@, Json::Text(status)).insert(
            "events_count"@,
            Json::Number(events.len() as int),
        ).insert("correlation_id"@, text_or_null(first_correlation(events))),
    )
}

/// The answer to a flow that completed.
pub fn flow_summary(status: &str, events: &Vec<PacketEvent>) -> (response: ApiResponse)
    ensures
        response.status == STATUS_OK,
        json_of(response.body) == summary_body(status@, records(events@)),
{
    let correlation = if events.len() > 0 {
        match events[0].correlation_id() {
            Some(id) => text(id),
            None => null(),
        }
    } else {
        null()
    };
    let mut members = no_members();
    members.insert("status".to_owned(), text(status));
    members.insert("events_count".to_owned(), number(events.len() as u64));
    members.insert("correlation_id".to_owned(), correlation);
    ApiResponse { status: STATUS_OK, body: object(members) }
}

/// The answer to a send-message flow that has ended: the summary of its
/// records under the status `delivered` where it is complete, its error
/// where it was aborted. A flow that still asks for an operation has no
/// answer yet.
pub fn send_message_response(
    flow: &SendFlow,
    action: &SendAction,
) -> (response: Option<ApiResponse>)
    ensures
        match *action {
            SendAction::Aborted(error) => {
                &&& response matches Some(answer)
                &&& failure_answer("send_message"@, error, answer)
            },
            SendAction::Finished => {
                &&& response matches Some(answer)
                &&& answer.status == STATUS_OK
                &&& json_of(answer.body) == summary_body("delivered"@, flow@.events)
            },
            _ => response is None,
        },
{
    match action {
        SendAction::Aborted(error) => Some(flow_failure("send_message", error)),
        SendAction::Finished => Some(flow_summary("delivered", flow.events())),
        _ => None,
    }
}

/// The answer to a trust-ping flow that has ended: the summary of its
/// records under the status `pong_received` where it is complete, its error
/// where it was aborted. A flow that still asks for an operation has no
/// answer yet.
pub fn send_ping_response(
    flow: &PingFlow,
    action: &PingAction,
) -> (response: Option<ApiResponse>)
    ensures
        match *action {
            PingAction::Aborted(error) => {
                &&& response matches Some(answer)
                &&& failure_answer("trust_ping"@, error, answer)
            },
            PingAction::Finished => {
                &&& response matches Some(answer)
                &&& answer.status == STATUS_OK
                &&& json_of(answer.body) == summary_body("pong_received"@, flow@.events)
            },
            _ => response is None,
        },
{
    match action {
        PingAction::Aborted(error) => Some(flow_failure("trust_ping", error)),
        PingAction::Finished => Some(flow_summary("pong_received", flow.events())),
        _ => None,
    }
}

/// Whether a body is blank, given what is left of it without the white
/// space at its ends.
pub fn body_is_blank(trimmed_body: &str) -> (blank: bool)
    ensures
        blank == (trimmed_body@.len() == 0),
{
    trimmed_body.is_empty()
}

/// An answer that puts an error down to the request, with a message.
pub open spec fn refuses(response: ApiResponse, message: Seq<char>) -> bool {
    &&& response.status == STATUS_BAD_REQUEST
    &&& json_of(response.body) == error_body(message, None)
}

/// Takes a request to send a message. A body that is blank, the empty one
/// among them, is refused before anything else happens; else the
/// send-message flow starts, under a fresh correlation identifier. An alias that names no party is refused as
/// the request's fault, the sender's first.
pub fn send_message(
    state: &AppState,
    req: &SendMessageRequest,
) -> (outcome: Result<(SendFlow, SendAction), ApiResponse>)
    ensures
        match outcome {
            Ok((flow, action)) => {
                &&& !blank(req.body@)
                &&& flow@.correlation_id.len() == 36
                &&& flow@.well_formed()
                &&& send_begun(
                    state@,
                    flow@.correlation_id,
                    req.from@,
                    req.to@,
                    req.body@,
                    flow@,
                    action,
                )
            },
            Err(response) => if blank(req.body@) {
                refuses(response, "body cannot be empty"@)
            } else if party_named(lowercase(req.from@)) is None {
                refuses(response, "Unknown sender: "@ + req.from@)
            } else {
                &&& party_named(lowercase(req.to@)) is None
                &&& refuses(response, "Unknown recipient: "@ + req.to@)
            },
        },
{
    proof {
        lemma_trimmed_is_empty_iff_blank(req.body@);
    }
    if body_is_blank(trim(req.body.as_str())) {
        return Err(api_error(STATUS_BAD_REQUEST, "body cannot be empty", None));
    }
    match crate::flows::send_message::send_message(
        state,
        req.from.as_str(),
        req.to.as_str(),
        req.body.as_str(),
    ) {
        Ok(started) => Ok(started),
        Err(error) => Err(flow_failure("send_message", &error)),
    }
}

/// Takes a request to send a trust ping: the trust-ping flow starts, under a
/// fresh correlation identifier, and emits the record of the ping. An alias
/// that names nothing is refused as the request's fault, the sender's first.
pub fn send_ping(
    state: &AppState,
    req: &PingRequest,
) -> (outcome: Result<(PingFlow, PingAction), ApiResponse>)
    ensures
        match outcome {
            Ok((flow, action)) => {
                &&& flow@.correlation_id.len() == 36
                &&& flow@.well_formed()
                &&& ping_begun(state@, flow@.correlation_id, req.from@, req.to@, flow@, action)
            },
            Err(response) => match party_named(lowercase(req.from@)) {
                None => refuses(response, "Unknown sender: "@ + req.from@),
                Some(sender) => {
                    &&& ping_target(state@, sender, lowercase(req.to@)) is None
                    &&& refuses(response, "Unknown ping target: "@ + req.to@)
                },
            },
        },
{
    match crate::flows::trust_ping::trust_ping(state, req.from.as_str(), req.to.as_str()) {
        Ok(started) => Ok(started),
        Err(error) => Err(flow_failure("trust_ping", &error)),
    }
}

impl IdentitiesResponse {
    /// The identities as a JSON document: one member for each party.
    pub fn to_json(&self) -> (doc: Value)
        ensures
            json_of(doc) == object2(
                "alice"@,
                identity_wire_form(self.alice@),
                "bob"@,
                identity_wire_form(self.bob@),
            ),
    {
        build_object2("alice", self.alice.to_json(), "bob", self.bob.to_json())
    }
}

/// What to fetch of the messages stored for a party.
#[derive(Debug)]
pub struct FetchPlan {
    /// The party whose messages are fetched.
    pub party: Party,
    /// The largest number of messages to fetch.
    pub limit: usize,
    /// Whether the mediator deletes what it hands out.
    pub delete_after_fetch: bool,
    /// The message to start after, if any.
    pub start_id: Option<String>,
}

/// The outcome of planning a fetch for an alias that is given in lower
/// case: the first messages of the party that it names, left in place; or a
/// refusal that reports the alias as it was written.
pub open spec fn fetch_planned(
    lowered: Seq<char>,
    alias: Seq<char>,
    outcome: Result<FetchPlan, ApiResponse>,
) -> bool {
    match party_named(lowered) {
        Some(party) => {
            &&& outcome matches Ok(plan)
            &&& plan.party == party
            &&& plan.limit == FETCH_LIMIT
            &&& !plan.delete_after_fetch
            &&& plan.start_id is None
        },
        None => outcome matches Err(response) && refuses(response, "Unknown alias: "@ + alias),
    }
}

/// Plans a fetch for an alias that is already in lower case.
pub fn fetch_lowered(lowered: &str, alias: &str) -> (outcome: Result<FetchPlan, ApiResponse>)
    ensures
        fetch_planned(lowered@, alias@, outcome),
{
    match Party::from_lowered(lowered) {
        Some(party) => Ok(
            FetchPlan { party, limit: FETCH_LIMIT, delete_after_fetch: false, start_id: None },
        ),
        None => {
            let message = "Unknown alias: ".to_owned().concat(alias);
            Err(api_error(STATUS_BAD_REQUEST, message.as_str(), None))
        },
    }
}

/// Takes a request for the messages stored for a party, named by its alias
/// in any case.
pub fn fetch_messages(alias: &str) -> (outcome: Result<FetchPlan, ApiResponse>)
    ensures
        fetch_planned(lowercase(alias@), alias@, outcome),
{
    let lowered = to_lowercase(alias);
    fetch_lowered(lowered.as_str(), alias)
}

/// A message that the mediator holds for a party.
#[derive(Debug)]
pub struct StoredMessage {
    pub msg_id: String,
    /// The message as the mediator holds it, if it handed it out.
    pub msg: Option<String>,
}

/// A stored message in the answer to a fetch.
pub open spec fn stored_entry(message: StoredMessage) -> Json {
    object2("msg_id"@, Json::Text(message.msg_id@), "msg"@, text_or_null(opt_text(message.msg)))
}

/// The stored messages in the answer to a fetch, in their order.
pub open spec fn stored_entries(messages: Seq<StoredMessage>) -> Seq<Json> {
    messages.map_values(|m: StoredMessage| stored_entry(m))
}

/// The answer to a fetch: the messages that the mediator handed out, or its
/// error.
pub fn fetched_response(outcome: &Result<Vec<StoredMessage>, String>) -> (response: ApiResponse)
    ensures
        match *outcome {
            Ok(messages) => {
                &&& response.status == STATUS_OK
                &&& json_of(response.body) == object1(
                    "messages"@,
                    Json::Array(stored_entries(messages@)),
                )
            },
            Err(detail) => {
                &&& response.status == STATUS_INTERNAL_SERVER_ERROR
                &&& json_of(response.body) == error_body(detail@, Some("fetch_messages"@))
            },
        },
{
    match outcome {
        Ok(messages) => {
            let mut entries: Vec<Value> = Vec::new();
            let mut i: usize = 0;
            while i < messages.len()
                invariant
                    i <= messages.len(),
                    entries.len() == i,
                    forall|k: int| 0 <= k < i ==> json_of(entries[k]) == stored_entry(messages[k]),
                decreases messages.len() - i,
            {
                let message = &messages[i];
                let content = match &message.msg {
                    Some(m) => text(m.as_str()),
                    None => null(),
                };
                entries.push(build_object2("msg_id", text(message.msg_id.as_str()), "msg", content));
                i += 1;
            }
            assert(contents(entries@) =~= stored_entries(messages@));
            ApiResponse { status: STATUS_OK, body: build_object1("messages", array(entries)) }
        },
        Err(detail) => api_error(
            STATUS_INTERNAL_SERVER_ERROR,
            detail.as_str(),
            Some("fetch_messages"),
        ),
    }
}

/// One item of a live stream: the name of its kind and its data.
#[derive(Debug)]
pub struct StreamItem {
    pub event: String,
    pub data: String,
}

/// What a live stream pushes for one delivery of its subscription: for a
/// record one item of the kind `packet` that holds the record in the wire
/// format; for anything else, a lag among them, nothing.
pub fn stream_item(delivery: &Delivery) -> (item: Option<StreamItem>)
    ensures
        match *delivery {
            Delivery::Record(record) => {
                &&& item matches Some(pushed)
                &&& pushed.event@ == "packet"@
                &&& pushed.data@ == rendered(wire_form(record@))
            },
            _ => item is None,
        },
{
    match delivery {
        Delivery::Record(record) => Some(
            StreamItem { event: "packet".to_owned(), data: record.to_json_text() },
        ),
        _ => None,
    }
}

/// One observer's live stream: its subscription, and the keep-alive signal
/// that goes out while no item does.
pub struct LiveStream {
    pub subscription: Subscription,
    pub keep_alive_secs: u64,
    pub keep_alive_text: String,
}

/// Opens a live stream for one observer, with a subscription of its own on
/// the packet channel of the state.
pub fn packet_stream(state: &AppState) -> (stream: LiveStream)
    ensures
        stream.subscription.window() == window_of(state@.packet_tx),
        stream.keep_alive_secs == KEEP_ALIVE_SECS,
        stream.keep_alive_text@ == "ping"@,
{
    LiveStream {
        subscription: subscribe(&state.packet_tx),
        keep_alive_secs: KEEP_ALIVE_SECS,
        keep_alive_text: "ping".to_owned(),
    }
}

impl LiveStream {
    /// Takes what the subscription has at this moment and gives the item to
    /// push for it, if any. Whatever the subscription has, an item is one of
    /// the kind `packet` that holds a record in the wire format, and the
    /// subscription has then moved on by that one record. Nothing else of
    /// the stream changes.
    pub fn next_item(&mut self) -> (item: Option<StreamItem>)
        ensures
            item matches Some(pushed) ==> {
                &&& pushed.event@ == "packet"@
                &&& exists|record: PacketEventView| #[trigger]
                    rendered(wire_form(record)) == pushed.data@
            },
            item is Some ==> final(self).subscription.place() == moved_on(
                old(self).subscription.place(),
                1,
            ),
            final(self).subscription.window() == old(self).subscription.window(),
            final(self).keep_alive_secs == old(self).keep_alive_secs,
            final(self).keep_alive_text == old(self).keep_alive_text,
    {
        let delivery = self.subscription.poll();
        let item = stream_item(&delivery);
        proof {
            if let Delivery::Record(record) = delivery {
                assert(rendered(wire_form(record@)) == item.unwrap().data@);
            }
        }
        item
    }
}

/// What a reset leaves: the record that was published, and the answer.
#[derive(Debug)]
pub struct ResetOutcome {
    pub record: PacketEvent,
    pub response: ApiResponse,
}

/// The payload of a reset record.
pub open spec fn reset_payload() -> Json {
    object1("action"@, Json::Text("reset"@))
}

/// Tells every observer to clear its view: publishes one record that
/// belongs to no flow and holds the reset payload.
pub fn reset_demo(state: &AppState) -> (outcome: ResetOutcome)
    ensures
        outcome.record@ == fresh_record(
            outcome.record@.id,
            outcome.record@.timestamp,
            PacketDirection::Outbound,
            "system"@,
            "all"@,
            PacketStep::PlaintextMessage,
            reset_payload(),
            None,
        ),
        outcome.record@.id.len() == 36,
        outcome.response.status == STATUS_OK,
        json_of(outcome.response.body) == object1("status"@, Json::Text("reset"@)),
{
    let record = PacketEvent::new(
        PacketDirection::Outbound,
        "system",
        "all",
        PacketStep::PlaintextMessage,
        build_object1("action", text("reset")),
        None,
    );
    let _ = publish(&state.packet_tx, &record);
    let response = ApiResponse { status: STATUS_OK, body: build_object1("status", text("reset")) };
    ResetOutcome { record, response }
}

} // verus!
