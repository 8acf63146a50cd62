use event_store::event::{Event, EventContext, EventData};
use event_store::store::{
    classify_insert_error, delivery_step, event_queue_name, namespaced_event_queue_name,
    replay_since, save_after_emit, save_after_store, DeliveryAction, DeliveryEvent, DeliveryState,
    EventReplayRequested, SaveStatus, SaveStep, StoreError, SubscribeOptions,
};
use event_store::testhelpers::TestEvent;
use event_store::time::Timestamp;

fn err(m: &str) -> StoreError {
    StoreError { message: m.to_string() }
}

#[test]
fn unique_violations_are_duplicates() {
    assert!(matches!(classify_insert_error("23505", "duplicate key"), Ok(SaveStatus::Duplicate)));
}

#[test]
fn other_insert_errors_fail_the_save() {
    let e = classify_insert_error("42P01", "relation does not exist").err().unwrap();
    assert_eq!(e.message, "Could not save event: relation does not exist");
}

#[test]
fn save_emits_stored_events() {
    assert!(matches!(save_after_store(Ok(SaveStatus::Saved)), SaveStep::Emit));
    assert!(matches!(save_after_store(Ok(SaveStatus::Duplicate)), SaveStep::Emit));
    match save_after_store(Err(err("down"))) {
        SaveStep::Finish(Err(e)) => assert_eq!(e.message, "down"),
        _ => panic!("a failed write ends the save"),
    }
}

#[test]
fn save_reports_ok_after_emitting() {
    assert!(matches!(save_after_emit(Ok(())), Ok(SaveStatus::Saved)));
    assert_eq!(save_after_emit(Err(err("no channel"))).err().unwrap().message, "no channel");
}

#[test]
fn subscribe_options_default_to_replay_and_save() {
    let o = SubscribeOptions::default();
    assert!(o.replay_previous_events);
    assert!(o.save_on_receive);
}

#[test]
fn delivery_saves_then_handles_then_acks() {
    let options = SubscribeOptions { replay_previous_events: false, save_on_receive: true };
    let (s, a) = delivery_step(&options, DeliveryState::Waiting, DeliveryEvent::Parsed);
    assert!(matches!(s, DeliveryState::Saving) && matches!(a, DeliveryAction::Save));
    let (s, a) = delivery_step(&options, s, DeliveryEvent::Saved(Ok(SaveStatus::Saved)));
    assert!(matches!(s, DeliveryState::Acking) && matches!(a, DeliveryAction::HandleThenAck));
    let (s, a) = delivery_step(&options, s, DeliveryEvent::Acked(Ok(())));
    assert!(matches!(s, DeliveryState::Waiting) && matches!(a, DeliveryAction::Nothing));
}

#[test]
fn delivery_skips_the_handler_for_duplicates() {
    let options = SubscribeOptions::default();
    let (s, a) = delivery_step(&options, DeliveryState::Saving, DeliveryEvent::Saved(Ok(SaveStatus::Duplicate)));
    assert!(matches!(s, DeliveryState::Acking) && matches!(a, DeliveryAction::Ack));
}

#[test]
fn delivery_without_saving_handles_at_once() {
    let options = SubscribeOptions { replay_previous_events: true, save_on_receive: false };
    let (s, a) = delivery_step(&options, DeliveryState::Waiting, DeliveryEvent::Parsed);
    assert!(matches!(s, DeliveryState::Acking) && matches!(a, DeliveryAction::HandleThenAck));
}

#[test]
fn delivery_failures() {
    let options = SubscribeOptions::default();
    let (s, a) = delivery_step(&options, DeliveryState::Waiting, DeliveryEvent::ParseFailed);
    assert!(matches!(s, DeliveryState::Waiting) && matches!(a, DeliveryAction::ReportParseError));
    match delivery_step(&options, DeliveryState::Saving, DeliveryEvent::Saved(Err(err("x")))) {
        (DeliveryState::Waiting, DeliveryAction::Abort(m)) => assert_eq!(m, "Failed to handle event"),
        _ => panic!("a failed save stops the subscription"),
    }
    match delivery_step(&options, DeliveryState::Acking, DeliveryEvent::Acked(Err(err("x")))) {
        (DeliveryState::Waiting, DeliveryAction::Abort(m)) => assert_eq!(m, "Could not ack message"),
        _ => panic!("a failed ack stops the subscription"),
    }
    let (s, a) = delivery_step(&options, DeliveryState::Acking, DeliveryEvent::Parsed);
    assert!(matches!(s, DeliveryState::Acking) && matches!(a, DeliveryAction::Nothing));
}

#[test]
fn queue_names() {
    assert_eq!(event_queue_name::<TestEvent>(), "some_namespace.TestEvent");
    assert_eq!(namespaced_event_queue_name::<TestEvent>("store"), "store-some_namespace.TestEvent");
    assert_eq!(event_queue_name::<EventReplayRequested>(), "_eventstore.EventReplayRequested");
}

#[test]
fn event_data_names() {
    assert_eq!(TestEvent::event_namespace_and_type(), "some_namespace.TestEvent");
    assert_eq!(TestEvent::event_namespace(), "some_namespace");
    assert_eq!(TestEvent::event_type(), "TestEvent");
    assert_eq!(EventReplayRequested::event_namespace_and_type(), "_eventstore.EventReplayRequested");
}

#[test]
fn replay_starts_at_the_epoch_without_events() {
    let t = replay_since(None);
    assert_eq!((t.secs(), t.nanos()), (0, 0));
    let last = Timestamp::from_parts(1431648000, 5).unwrap();
    let t = replay_since(Some(last));
    assert_eq!((t.secs(), t.nanos()), (1431648000, 5));
}

#[test]
fn replay_requests_name_the_event_kind() {
    let since = Timestamp::from_parts(1000, 0).unwrap();
    let req = EventReplayRequested::from_event::<TestEvent>(since);
    assert_eq!(req.data.requested_event_namespace, "some_namespace");
    assert_eq!(req.data.requested_event_type, "TestEvent");
    assert_eq!(req.data.since.secs(), 1000);
    assert!(req.context.action.is_none());
    assert_eq!(req.data.replay_routing_key(), "some_namespace.TestEvent");
}

#[test]
fn events_keep_their_data_and_take_ids() {
    let e = Event::from_data(TestEvent { num: 5 });
    assert_eq!((e.id >> 76) & 0xf, 4);
    assert_eq!((e.id >> 62) & 0x3, 2);
    let f = e.with_id(42);
    assert_eq!(f.id, 42);
    assert_eq!(f.data.num, 5);
    let ctx = EventContext { action: Some("a".to_string()), subject: None, time: Timestamp::unix_epoch() };
    let g = Event::new(TestEvent { num: 1 }, 7, ctx);
    assert_eq!(g.id, 7);
    assert_eq!(g.context.action, Some("a".to_string()));
}
