use event_store::aggregate::{
    aggregate_begin, aggregate_events, aggregate_query, aggregate_start, aggregate_step, try_aggregate_events,
    AggregateAction, AggregateReply, Aggregator,
};
use event_store::event::Event;
use event_store::query::StoreQuery;
use event_store::store::{save_after_emit, save_after_store, SaveStatus, SaveStep};
use event_store::testhelpers::{
    create_database_statement, database_url, millis_from_duration, random_db_name,
    TestCounterEntity, TestEvent, TestEvents,
};
use event_store::time::Timestamp;

/// The events held by a store, as the aggregate workflow reads them.
fn stored(nums: &[i32]) -> Vec<TestEvents> {
    nums.iter().map(|n| TestEvents::Inc(Event::from_data(TestEvent { num: *n }))).collect()
}

/// Runs the aggregate workflow over an in-memory store (the amounts of its
/// events, in time order) and cache.
fn aggregate(amounts: &[i32], cache: &mut Option<(TestCounterEntity, Timestamp)>) -> TestCounterEntity {
    let (mut phase, mut action) = aggregate_begin::<TestCounterEntity, TestEvents, String, _>("ident".to_string());
    let cached_count = cache.as_ref().map(|_| amounts.len()).unwrap_or(0);
    loop {
        let reply = match action {
            AggregateAction::ReadCache(key) => {
                assert_eq!(key, TestCounterEntity::query("ident".to_string()).unique_id());
                AggregateReply::Cached(cache.take())
            }
            AggregateAction::ReadEvents(query, since) => {
                assert_eq!(query.query, "select * from events");
                let read = if since.is_some() { stored(&amounts[cached_count..]) } else { stored(amounts) };
                AggregateReply::Read(read)
            }
            AggregateAction::SaveAndReturn(key, result) => {
                assert_eq!(key.len(), 64);
                *cache = Some((result, Timestamp::now()));
                return result;
            }
            AggregateAction::Refuse => panic!("an event could not be applied"),
            AggregateAction::OutOfOrder => panic!("reply out of order"),
        };
        let (next_phase, next_action) = aggregate_step::<TestCounterEntity, TestEvents, String, _>(phase, reply);
        phase = next_phase;
        action = next_action;
    }
}

#[test]
fn aggregation_refuses_an_overflowing_event() {
    let (phase, _) = aggregate_begin::<TestCounterEntity, TestEvents, String, _>("ident".to_string());
    let (phase, action) = aggregate_step::<TestCounterEntity, TestEvents, String, _>(
        phase,
        AggregateReply::Cached(Some((TestCounterEntity { counter: i32::MAX }, Timestamp::unix_epoch()))),
    );
    match action {
        AggregateAction::ReadEvents(_, Some(t)) => assert_eq!((t.secs(), t.nanos()), (0, 0)),
        _ => panic!("expected a read of the events since the cached time"),
    }
    let (phase, action) = aggregate_step::<TestCounterEntity, TestEvents, String, _>(phase, AggregateReply::Read(stored(&[1])));
    assert!(matches!(action, AggregateAction::Refuse));
    let (_, action) = aggregate_step::<TestCounterEntity, TestEvents, String, _>(phase, AggregateReply::Read(stored(&[1])));
    assert!(matches!(action, AggregateAction::OutOfOrder));
}

#[test]
fn aggregation_without_cache_reads_every_event() {
    let (query, key) = aggregate_query::<TestCounterEntity, TestEvents, String, _>("ident".to_string());
    assert_eq!(key, query.unique_id());
    let (phase, action) = aggregate_begin::<TestCounterEntity, TestEvents, String, _>("ident".to_string());
    assert!(matches!(action, AggregateAction::ReadCache(_)));
    let (phase, action) = aggregate_step::<TestCounterEntity, TestEvents, String, _>(phase, AggregateReply::Cached(None));
    assert!(matches!(action, AggregateAction::ReadEvents(_, None)));
    let (_, action) = aggregate_step::<TestCounterEntity, TestEvents, String, _>(phase, AggregateReply::Read(stored(&[4, -1])));
    match action {
        AggregateAction::SaveAndReturn(_, state) => assert_eq!(state.counter, 3),
        _ => panic!("expected the aggregate to be saved"),
    }
}

#[test]
fn it_queries_the_database() {
    let mut cache = None;
    let entity = aggregate(&[99], &mut cache);
    assert_eq!(entity.counter, 99);
}

#[test]
fn it_saves_events() {
    let saved = match save_after_store(Ok(SaveStatus::Saved)) {
        SaveStep::Emit => save_after_emit(Ok(())),
        SaveStep::Finish(r) => r,
    };
    assert!(saved.is_ok());
}

#[test]
fn it_uses_the_aggregate_cache() {
    let mut cache = None;
    let entity = aggregate(&[1, 2], &mut cache);
    assert_eq!(entity.counter, 3);
    let again = aggregate(&[1, 2], &mut cache);
    assert_eq!(again.counter, 3);
}

#[test]
fn aggregating_in_batches_matches_aggregating_at_once() {
    let all = stored(&[1, 2, 3, 4]);
    let at_once = aggregate_events::<TestCounterEntity, TestEvents, String, _>(TestCounterEntity::default(), &all);
    let first = aggregate_events::<TestCounterEntity, TestEvents, String, _>(TestCounterEntity::default(), &stored(&[1, 2]));
    let then = aggregate_events::<TestCounterEntity, TestEvents, String, _>(first, &stored(&[3, 4]));
    assert_eq!(at_once, then);
    assert_eq!(at_once.counter, 10);
}

#[test]
fn cached_state_is_the_starting_point() {
    let cached = TestCounterEntity { counter: 7 };
    let t = Timestamp::from_parts(100, 0).unwrap();
    let (state, since) = aggregate_start::<TestCounterEntity, TestEvents, String, _>(Some((cached, t)));
    assert_eq!(state.counter, 7);
    assert_eq!(since.unwrap().secs(), 100);
    let (state, since) = aggregate_start::<TestCounterEntity, TestEvents, String, _>(None);
    assert_eq!(state.counter, 0);
    assert!(since.is_none());
}

#[test]
fn test_database_names() {
    assert_eq!(millis_from_duration(1_500_000_000, 123_456_789), 1_500_000_000_123);
    assert_eq!(random_db_name(1_500_000_000_123, None), "eventstorerust-1500000000123-test");
    assert_eq!(random_db_name(7, Some("pg")), "eventstorerust-7-pg");
    assert_eq!(create_database_statement("db"), "CREATE DATABASE \"db\"");
    assert_eq!(database_url("db"), "postgres://postgres@localhost:5430/db");
}

#[test]
fn events_that_would_overflow_are_refused() {
    let start = TestCounterEntity { counter: i32::MAX - 1 };
    assert!(try_aggregate_events::<TestCounterEntity, TestEvents, String, _>(start, &stored(&[1, 1])).is_none());
    let ok = try_aggregate_events::<TestCounterEntity, TestEvents, String, _>(start, &stored(&[1, -5]));
    assert_eq!(ok.unwrap().counter, i32::MAX - 5);
}
