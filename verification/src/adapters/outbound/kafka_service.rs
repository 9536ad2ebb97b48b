//! The event stream: the event published when a user is created, and what the
//! consumer of the `user-events` topic does with each item it receives.
use vstd::prelude::*;
use vstd::utf8::{decode_utf8, valid_utf8};
use crate::ids::{format_id, uuid_text};

verus! {

/// How long a publication may wait for the broker, in seconds.
pub const PUBLISH_TIMEOUT_SECS: u64 = 5u64;

/// The topic of user events.
pub open spec fn user_events_topic() -> Seq<char> {
    "user-events"@
}

/// The type of the event published when a user is created.
pub open spec fn user_created_type() -> Seq<char> {
    "USER_CREATED"@
}

/// The event published when a user is created: a JSON object with the
/// fields `event_type`, `user_id` and `timestamp`.
pub struct UserCreatedEvent {
    pub event_type: String,
    pub user_id: u128,
    pub timestamp: String,
}

/// A message to publish: its topic, its key, its event, and the event as the
/// JSON text that is sent.
pub struct PublishRequest {
    pub topic: String,
    pub key: String,
    pub event: UserCreatedEvent,
    pub payload: String,
}

/// The compact JSON text that `serde_json` writes for an object whose members are
/// the given (name, string value) pairs, inserted in that order into a
/// `serde_json::Map`. The map decides the order in which members are written:
/// sorted by name (a `BTreeMap`), as serde_json is built here without its
/// `preserve_order` feature.
pub uninterp spec fn json_object_text(entries: Seq<(Seq<char>, Seq<char>)>) -> Seq<char>;

/// The views of (name, value) pairs of strings.
pub open spec fn pair_views(entries: Seq<(String, String)>) -> Seq<(Seq<char>, Seq<char>)> {
    entries.map_values(|p: (String, String)| (p.0@, p.1@))
}

/// Builds a `serde_json::Value::Object` of string members from the pairs and
/// writes it with `Display` of `serde_json::Value` (the compact form, members in
/// the map's order: sorted by name in this build).
#[verifier::external_body]
fn json_string_object(entries: Vec<(String, String)>) -> (text: String)
    ensures
        text@ == json_object_text(pair_views(entries@)),
{
    let map: serde_json::Map<String, serde_json::Value> =
        entries.into_iter().map(|(k, v)| (k, serde_json::Value::String(v))).collect();
    serde_json::Value::Object(map).to_string()
}

/// The members of the `USER_CREATED` event, in the order they are inserted (the
/// text lists them sorted by name: `event_type`, `timestamp`, `user_id`).
pub open spec fn user_created_members(user_id: u128, timestamp: Seq<char>) -> Seq<(Seq<char>, Seq<char>)> {
    seq![("event_type"@, user_created_type()), ("user_id"@, uuid_text(user_id)), ("timestamp"@, timestamp)]
}

/// The request that announces the creation of the user `user_id` at the instant
/// written `timestamp`: on the topic `user-events`, keyed by the user's identifier.
pub open spec fn is_user_created_request(r: PublishRequest, user_id: u128, timestamp: Seq<char>) -> bool {
    &&& r.topic@ == user_events_topic()
    &&& r.key@ == uuid_text(user_id)
    &&& r.event.event_type@ == user_created_type()
    &&& r.event.user_id == user_id
    &&& r.event.timestamp@ == timestamp
    &&& r.payload@ == json_object_text(user_created_members(user_id, timestamp))
}

/// The request that announces the creation of the user `user_id` at the instant
/// written `timestamp`.
pub fn user_created_request(user_id: u128, timestamp: String) -> (r: PublishRequest)
    ensures
        is_user_created_request(r, user_id, timestamp@),
{
    let members = vec![
        (String::from_str("event_type"), String::from_str("USER_CREATED")),
        (String::from_str("user_id"), format_id(user_id)),
        (String::from_str("timestamp"), timestamp.clone()),
    ];
    proof {
        assert(pair_views(members@) =~= user_created_members(user_id, timestamp@));
    }
    let payload = json_string_object(members);
    PublishRequest {
        topic: String::from_str("user-events"),
        key: format_id(user_id),
        event: UserCreatedEvent {
            event_type: String::from_str("USER_CREATED"),
            user_id,
            timestamp,
        },
        payload,
    }
}

/// Whether `serde_json::from_str::<serde_json::Value>` reads the text as JSON.
pub uninterp spec fn json_text_valid(text: Seq<char>) -> bool;

/// The error that `serde_json` reports for a text it cannot read.
#[verifier::external_type_specification]
#[verifier::external_body]
pub struct ExJsonError(serde_json::Error);

/// Calls `serde_json::from_str::<serde_json::Value>`, dropping the value read and
/// keeping the parser's error.
#[verifier::external_body]
fn parse_json(text: &str) -> (r: Result<(), serde_json::Error>)
    ensures
        r is Ok <==> json_text_valid(text@),
{
    match serde_json::from_str::<serde_json::Value>(text) {
        Ok(_) => Ok(()),
        Err(e) => Err(e),
    }
}

/// Calls `std::str::from_utf8`, which accepts exactly the valid UTF-8 byte strings.
#[verifier::external_body]
fn utf8_text(bytes: &[u8]) -> (r: Option<String>)
    ensures
        match r {
            Some(s) => valid_utf8(bytes@) && s@ == decode_utf8(bytes@),
            None => !valid_utf8(bytes@),
        },
{
    match std::str::from_utf8(bytes) {
        Ok(s) => Some(s.to_string()),
        Err(_) => None,
    }
}

/// Why an event could not be processed.
#[derive(Debug)]
pub enum EventError {
    /// The payload is no JSON text: the parser's error.
    InvalidJson(serde_json::Error),
}

/// Processes a received event: it is accepted when its payload is JSON text,
/// and refused with the parser's error otherwise.
pub fn process_event(payload: &str) -> (r: Result<(), EventError>)
    ensures
        json_text_valid(payload@) ==> r is Ok,
        !json_text_valid(payload@) ==> r matches Err(EventError::InvalidJson(_)),
{
    match parse_json(payload) {
        Ok(()) => Ok(()),
        Err(e) => Err(EventError::InvalidJson(e)),
    }
}

/// An item that the consumer receives from the stream.
pub enum ConsumerInput {
    /// The stream reported an error.
    StreamError,
    /// A message, with its payload if it has one.
    Message { payload: Option<Vec<u8>> },
}

/// What the consumer does with an item.
#[derive(Debug)]
pub enum ConsumerAction {
    /// Report the stream's error and go on.
    ReportStreamError,
    /// Go on without committing: the message has no text payload.
    Skip,
    /// The event was processed: commit the message.
    Commit,
    /// Report why the event could not be processed and go on without committing.
    ReportProcessingError(EventError),
}

/// The consumer's action is the one due for the item: a stream error is
/// reported; a message without a UTF-8 payload is skipped; one whose text is JSON
/// is committed; any other is reported as not processed.
pub open spec fn consumer_decision(input: ConsumerInput, action: ConsumerAction) -> bool {
    match input {
        ConsumerInput::StreamError => action is ReportStreamError,
        ConsumerInput::Message { payload } => match payload {
            None => action is Skip,
            Some(bytes) => if !valid_utf8(bytes@) {
                action is Skip
            } else if json_text_valid(decode_utf8(bytes@)) {
                action is Commit
            } else {
                action matches ConsumerAction::ReportProcessingError(EventError::InvalidJson(_))
            },
        },
    }
}

/// Decides what the consumer does with an item: a stream error is reported; a
/// message without a UTF-8 payload is skipped; a message whose text is processed
/// is committed, and one whose processing fails is reported.
pub fn consumer_step(input: ConsumerInput) -> (a: ConsumerAction)
    ensures
        consumer_decision(input, a),
        (a is Commit) <==> (input matches ConsumerInput::Message { payload: Some(b) } && valid_utf8(b@)
            && json_text_valid(decode_utf8(b@))),
        (a is ReportStreamError) <==> (input is StreamError),
        (a is Skip) <==> (input matches ConsumerInput::Message { payload: p } && (p is None || !valid_utf8(
            p.unwrap()@,
        ))),
{
    match input {
        ConsumerInput::StreamError => ConsumerAction::ReportStreamError,
        ConsumerInput::Message { payload } => match payload {
            None => ConsumerAction::Skip,
            Some(bytes) => match utf8_text(bytes.as_slice()) {
                None => ConsumerAction::Skip,
                Some(text) => match process_event(text.as_str()) {
                    Ok(()) => ConsumerAction::Commit,
                    Err(e) => ConsumerAction::ReportProcessingError(e),
                },
            },
        },
    }
}

/// The consumer commits a message exactly when its payload is UTF-8 text that
/// reads as JSON (any JSON value: object, array, number, string, ...), which is
/// exactly when `process_event` accepts that text; it skips exactly the messages
/// without a UTF-8 payload, and reports exactly the stream's errors as such.
pub proof fn lemma_consumer_commits_exactly_json(input: ConsumerInput, action: ConsumerAction)
    requires
        consumer_decision(input, action),
    ensures
        (action is Commit) <==> (input matches ConsumerInput::Message { payload: Some(b) } && valid_utf8(b@)
            && json_text_valid(decode_utf8(b@))),
        (action is Skip) <==> (input matches ConsumerInput::Message { payload: p } && (p is None
            || !valid_utf8(p.unwrap()@))),
        (action is ReportStreamError) <==> (input is StreamError),
        (action is ReportProcessingError) <==> (input matches ConsumerInput::Message { payload: Some(b) }
            && valid_utf8(b@) && !json_text_valid(decode_utf8(b@))),
{
}

} // verus!
