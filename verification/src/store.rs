//! The decisions of the store's workflows: saving, emitting, subscribing and replaying.
use vstd::prelude::*;
use crate::derive::dotted;
use crate::event::{Event, EventData};
use crate::text::str_eq;
use crate::time::Timestamp;

verus! {

/// Save result
#[derive(Debug)]
pub enum SaveStatus {
    /// The save was successful
    Saved,
    /// A duplicate item already exists in the backing store
    Duplicate,
}

/// An error of the store or of one of its adapters.
#[derive(Debug)]
pub struct StoreError {
    /// What went wrong
    pub message: String,
}

/// The result of a save operation
///
/// If the save did not error but a duplicate was encountered, this should be equal to
/// `Ok(SaveStatus::Saved)`
pub type SaveResult = Result<SaveStatus, StoreError>;

/// The SQLSTATE code Postgres reports for a unique constraint violation.
pub open spec fn unique_violation_code() -> Seq<char> {
    "23505"@
}

/// Turns the error of inserting an event into the result of the save: a unique
/// constraint violation means the event is already stored; any other error fails
/// the save with `Could not save event: ` and the error's text.
pub fn classify_insert_error(code: &str, error_text: &str) -> (r: SaveResult)
    ensures
        code@ == unique_violation_code() ==> r matches Ok(SaveStatus::Duplicate),
        code@ != unique_violation_code() ==> (r matches Err(e) && e.message@
            == "Could not save event: "@ + error_text@),
{
    if str_eq(code, "23505") {
        Ok(SaveStatus::Duplicate)
    } else {
        let mut message = String::from_str("Could not save event: ");
        message.append(error_text);
        Err(StoreError { message })
    }
}

/// What a save reports, given how writing the event and then emitting it went
/// (the emit only happens after a successful write).
pub open spec fn save_outcome(stored: SaveResult, emitted: Result<(), StoreError>) -> SaveResult {
    match stored {
        Err(e) => Err(e),
        Ok(_) => match emitted {
            Ok(()) => Ok(SaveStatus::Saved),
            Err(e) => Err(e),
        },
    }
}

/// What saving an event does after it was written to the backing store.
#[derive(Debug)]
pub enum SaveStep {
    /// Emit the event to subscribers
    Emit,
    /// Stop and report this result
    Finish(SaveResult),
}

/// The step that follows writing an event: a failed write ends the save with
/// its error; a stored event (new or duplicate) is emitted next.
pub fn save_after_store(stored: SaveResult) -> (r: SaveStep)
    ensures
        stored is Ok <==> r is Emit,
        r matches SaveStep::Finish(res) ==> forall|emitted: Result<(), StoreError>|
            res == save_outcome(stored, emitted),
{
    match stored {
        Ok(_) => SaveStep::Emit,
        Err(e) => SaveStep::Finish(Err(e)),
    }
}

/// The result of a save once the event was emitted: `Ok(SaveStatus::Saved)`, also
/// for an event that was already stored, or the emitter's error.
pub fn save_after_emit(emitted: Result<(), StoreError>) -> (r: SaveResult)
    ensures
        forall|status: SaveStatus| r == save_outcome(Ok(status), emitted),
{
    match emitted {
        Ok(()) => Ok(SaveStatus::Saved),
        Err(e) => Err(e),
    }
}

/// A save that wrote the event, or found it already stored, and emitted it
/// reports `Ok(SaveStatus::Saved)`: a duplicate is not reported as such.
pub proof fn lemma_duplicate_save_reports_saved(status: SaveStatus)
    ensures
        save_outcome(Ok(status), Ok(())) matches Ok(SaveStatus::Saved),
{
}

/// Subscribe options
#[derive(Debug)]
pub struct SubscribeOptions {
    /// Whether to emit an event replay request when a subscription is started
    pub replay_previous_events: bool,
    /// Whether to save the event when it is received, or just pass it to the handler
    pub save_on_receive: bool,
}

impl Default for SubscribeOptions {
    fn default() -> (r: Self)
        ensures
            r.replay_previous_events,
            r.save_on_receive,
    {
        SubscribeOptions { replay_previous_events: true, save_on_receive: true }
    }
}

impl Clone for SubscribeOptions {
    fn clone(&self) -> (r: Self)
        ensures
            r == *self,
    {
        SubscribeOptions {
            replay_previous_events: self.replay_previous_events,
            save_on_receive: self.save_on_receive,
        }
    }
}

/// Where the handling of one incoming message stands.
#[derive(Debug)]
pub enum DeliveryState {
    /// Waiting for the next message
    Waiting,
    /// The received event is being saved
    Saving,
    /// The message is being acknowledged
    Acking,
}

/// What happened to the subscription.
#[derive(Debug)]
pub enum DeliveryEvent {
    /// A message arrived and its payload was read as an event
    Parsed,
    /// A message arrived and its payload could not be read as an event
    ParseFailed,
    /// Saving the received event ended with this result
    Saved(SaveResult),
    /// Acknowledging the message ended with this result
    Acked(Result<(), StoreError>),
}

/// What the subscription does next.
#[derive(Debug)]
pub enum DeliveryAction {
    /// Save the received event
    Save,
    /// Pass the event to its handler, then acknowledge the message
    HandleThenAck,
    /// Acknowledge the message without calling the handler
    Ack,
    /// Log that the payload could not be read; the message is not acknowledged
    ReportParseError,
    /// Stop with this message
    Abort(String),
    /// Nothing
    Nothing,
}

/// The kind of an action of a subscription.
pub enum DeliveryKind {
    /// Save the received event
    Save,
    /// Pass the event to its handler, then acknowledge the message
    HandleThenAck,
    /// Acknowledge the message without calling the handler
    Ack,
    /// Log that the payload could not be read
    ReportParseError,
    /// Stop
    Abort,
    /// Nothing
    Nothing,
}

/// The kind of `a`.
pub open spec fn kind_of(a: DeliveryAction) -> DeliveryKind {
    match a {
        DeliveryAction::Save => DeliveryKind::Save,
        DeliveryAction::HandleThenAck => DeliveryKind::HandleThenAck,
        DeliveryAction::Ack => DeliveryKind::Ack,
        DeliveryAction::ReportParseError => DeliveryKind::ReportParseError,
        DeliveryAction::Abort(_) => DeliveryKind::Abort,
        DeliveryAction::Nothing => DeliveryKind::Nothing,
    }
}

/// The next state of a subscription and the kind of its next action.
///
/// A received event is saved first where `save_on_receive` is set; the handler
/// is called for it unless the store already held it; the message is then
/// acknowledged. A failed save or a failed acknowledgement stops the subscription.
/// What cannot happen in a state changes nothing.
pub open spec fn next_delivery(
    save_on_receive: bool,
    state: DeliveryState,
    event: DeliveryEvent,
) -> (DeliveryState, DeliveryKind) {
    match (state, event) {
        (DeliveryState::Waiting, DeliveryEvent::ParseFailed) => (
            DeliveryState::Waiting,
            DeliveryKind::ReportParseError,
        ),
        (DeliveryState::Waiting, DeliveryEvent::Parsed) => if save_on_receive {
            (DeliveryState::Saving, DeliveryKind::Save)
        } else {
            (DeliveryState::Acking, DeliveryKind::HandleThenAck)
        },
        (DeliveryState::Saving, DeliveryEvent::Saved(Ok(SaveStatus::Saved))) => (
            DeliveryState::Acking,
            DeliveryKind::HandleThenAck,
        ),
        (DeliveryState::Saving, DeliveryEvent::Saved(Ok(SaveStatus::Duplicate))) => (
            DeliveryState::Acking,
            DeliveryKind::Ack,
        ),
        (DeliveryState::Saving, DeliveryEvent::Saved(Err(_))) => (
            DeliveryState::Waiting,
            DeliveryKind::Abort,
        ),
        (DeliveryState::Acking, DeliveryEvent::Acked(Ok(()))) => (
            DeliveryState::Waiting,
            DeliveryKind::Nothing,
        ),
        (DeliveryState::Acking, DeliveryEvent::Acked(Err(_))) => (
            DeliveryState::Waiting,
            DeliveryKind::Abort,
        ),
        _ => (state, DeliveryKind::Nothing),
    }
}

/// The next state and action of a subscription, given what happened; a stop
/// says why: `Failed to handle event` after a failed save, `Could not ack
/// message` after a failed acknowledgement.
pub fn delivery_step(options: &SubscribeOptions, state: DeliveryState, event: DeliveryEvent) -> (r: (
    DeliveryState,
    DeliveryAction,
))
    ensures
        (r.0, kind_of(r.1)) == next_delivery(options.save_on_receive, state, event),
        r.1 matches DeliveryAction::Abort(m) ==> (m@ == "Failed to handle event"@ <==> event is Saved)
            && (m@ == "Could not ack message"@ <==> event is Acked),
{
    match (state, event) {
        (DeliveryState::Waiting, DeliveryEvent::ParseFailed) => (DeliveryState::Waiting, DeliveryAction::ReportParseError),
        (DeliveryState::Waiting, DeliveryEvent::Parsed) => if options.save_on_receive {
            (DeliveryState::Saving, DeliveryAction::Save)
        } else {
            (DeliveryState::Acking, DeliveryAction::HandleThenAck)
        },
        (DeliveryState::Saving, DeliveryEvent::Saved(result)) => match result {
            Ok(SaveStatus::Saved) => (DeliveryState::Acking, DeliveryAction::HandleThenAck),
            Ok(SaveStatus::Duplicate) => (DeliveryState::Acking, DeliveryAction::Ack),
            Err(_) => {
                let m = String::from_str("Failed to handle event");
                proof {
                    reveal_strlit("Failed to handle event");
                    reveal_strlit("Could not ack message");
                    assert(m@[0] != "Could not ack message"@[0]);
                }
                (DeliveryState::Waiting, DeliveryAction::Abort(m))
            },
        },
        (DeliveryState::Acking, DeliveryEvent::Acked(result)) => match result {
            Ok(()) => (DeliveryState::Waiting, DeliveryAction::Nothing),
            Err(_) => {
                let m = String::from_str("Could not ack message");
                proof {
                    reveal_strlit("Failed to handle event");
                    reveal_strlit("Could not ack message");
                    assert(m@[0] != "Failed to handle event"@[0]);
                }
                (DeliveryState::Waiting, DeliveryAction::Abort(m))
            },
        },
        (s, _) => (s, DeliveryAction::Nothing),
    }
}

/// A message whose event is read is acknowledged, and its handler is called
/// exactly when the event was not saved on receipt or was new to the store; the
/// subscription then waits for the next message.
pub proof fn lemma_delivery_of_a_message(save_on_receive: bool, saved: SaveStatus)
    ensures
        ({
            let (s1, k1) = next_delivery(save_on_receive, DeliveryState::Waiting, DeliveryEvent::Parsed);
            if save_on_receive {
                let (s2, k2) = next_delivery(save_on_receive, s1, DeliveryEvent::Saved(Ok(saved)));
                &&& k1 == DeliveryKind::Save
                &&& k2 == (if saved is Saved {
                    DeliveryKind::HandleThenAck
                } else {
                    DeliveryKind::Ack
                })
                &&& next_delivery(save_on_receive, s2, DeliveryEvent::Acked(Ok(()))) == (
                    DeliveryState::Waiting,
                    DeliveryKind::Nothing,
                )
            } else {
                &&& k1 == DeliveryKind::HandleThenAck
                &&& next_delivery(save_on_receive, s1, DeliveryEvent::Acked(Ok(()))) == (
                    DeliveryState::Waiting,
                    DeliveryKind::Nothing,
                )
            }
        }),
{
}

/// The routing key and queue name of the events of `ED`: `namespace.Type`.
pub fn event_queue_name<ED: EventData>() -> (r: String)
    ensures
        ED::obeys_event_data_spec() ==> r@ == dotted(ED::namespace_of(), ED::type_of()),
{
    crate::derive::join_dotted(ED::event_namespace(), ED::event_type())
}

/// The queue a store reads the events of `ED` from: `store_namespace-namespace.Type`.
pub fn namespaced_event_queue_name<ED: EventData>(store_namespace: &str) -> (r: String)
    ensures
        ED::obeys_event_data_spec() ==> r@ == store_namespace@ + "-"@ + dotted(
            ED::namespace_of(),
            ED::type_of(),
        ),
{
    let mut s = String::from_str(store_namespace);
    s.append("-");
    let q = event_queue_name::<ED>();
    s.append(q.as_str());
    s
}

/// The time a replay of previous events starts from: the time of the last
/// stored event of the kind, or the Unix epoch where none is stored.
pub fn replay_since(last_event_time: Option<Timestamp>) -> (r: Timestamp)
    ensures
        match last_event_time {
            Some(t) => r == t,
            None => r.parts() == (0i64, 0u32),
        },
{
    match last_event_time {
        Some(t) => t,
        None => Timestamp::unix_epoch(),
    }
}

/// A request, sent to every store, to emit again the events of a kind stored
/// since a given time.
#[derive(Debug)]
pub struct EventReplayRequested {
    /// The namespace of the events to replay
    pub requested_event_namespace: String,
    /// The type of the events to replay
    pub requested_event_type: String,
    /// The time from which events are replayed
    pub since: Timestamp,
}

impl EventData for EventReplayRequested {
    open spec fn obeys_event_data_spec() -> bool {
        true
    }

    open spec fn namespace_of() -> Seq<char> {
        "_eventstore"@
    }

    open spec fn type_of() -> Seq<char> {
        "EventReplayRequested"@
    }

    fn event_namespace_and_type() -> (r: &'static str) {
        proof {
            reveal_strlit("_eventstore.EventReplayRequested");
            reveal_strlit("_eventstore");
            reveal_strlit("EventReplayRequested");
            reveal_strlit(".");
        }
        let r = "_eventstore.EventReplayRequested";
        assert(r@ =~= dotted("_eventstore"@, "EventReplayRequested"@));
        r
    }

    fn event_namespace() -> (r: &'static str) {
        "_eventstore"
    }

    fn event_type() -> (r: &'static str) {
        "EventReplayRequested"
    }
}

impl EventReplayRequested {
    /// A replay request for the events of `ED` stored since `since`.
    pub fn from_event<ED: EventData>(since: Timestamp) -> (r: Event<Self>)
        ensures
            ED::obeys_event_data_spec() ==> r.data.requested_event_namespace@ == ED::namespace_of(),
            ED::obeys_event_data_spec() ==> r.data.requested_event_type@ == ED::type_of(),
            r.data.since == since,
            r.context.action is None,
            r.context.subject is None,
    {
        Event::from_data(
            EventReplayRequested {
                requested_event_namespace: String::from_str(ED::event_namespace()),
                requested_event_type: String::from_str(ED::event_type()),
                since,
            },
        )
    }

    /// The routing key under which each replayed event is emitted: `namespace.Type`
    /// of the requested events.
    pub fn replay_routing_key(&self) -> (r: String)
        ensures
            r@ == dotted(self.requested_event_namespace@, self.requested_event_type@),
    {
        crate::derive::join_dotted(
            self.requested_event_namespace.as_str(),
            self.requested_event_type.as_str(),
        )
    }
}

} // verus!
