use event_store::query::{generate_query, PgQuery, StoreQuery};
use event_store::time::Timestamp;

#[test]
fn unique_id_hashes_args_and_query() {
    let q = PgQuery::new("select * from events", vec![]);
    assert_eq!(q.unique_id(), "E7883AD00D5A1422FBAC3305D78916458AC1D3CBABF5B493197E0AF526609C92");
}

#[test]
fn unique_id_covers_the_arguments() {
    let q = PgQuery::new("select * from events where id = $1", vec!["1".to_string(), "\"abc\"".to_string()]);
    assert_eq!(q.unique_id(), "8CD4CFBA43A7DEC0C8D915F3A4C7B9C62972F9D55F0792CC8B2042723B46B3B6");
}

#[test]
fn unique_id_is_stable() {
    let a = PgQuery::new("select 1", vec!["2".to_string()]);
    let b = PgQuery::new("select 1", vec!["2".to_string()]);
    let c = PgQuery::new("select 1", vec!["3".to_string()]);
    assert_eq!(a.unique_id(), b.unique_id());
    assert_ne!(a.unique_id(), c.unique_id());
    assert_eq!(a.unique_id().len(), 64);
    assert_eq!(c.unique_id().len(), 64);
}

#[test]
fn generated_query_without_time() {
    let q = PgQuery::new("select * from events", vec![]);
    assert_eq!(
        generate_query(&q, &None),
        "select * from (select * from events) as events order by (events.context->>'time')::timestamp with time zone asc"
    );
}

#[test]
fn generated_query_since_a_time() {
    let q = PgQuery::new("select * from events", vec![]);
    let t = Timestamp::from_parts(1431648000, 0);
    assert_eq!(
        generate_query(&q, &t),
        "select * from (select * from events) as events where (events.context->>'time')::timestamp with time zone >= '2015-05-15 00:00:00 UTC' order by (events.context->>'time')::timestamp with time zone asc"
    );
}

#[test]
fn timestamps() {
    assert!(Timestamp::from_parts(0, 2_000_000_000).is_none());
    let t = Timestamp::from_parts(59, 1_500_000_000).unwrap();
    assert_eq!(t.secs(), 59);
    assert_eq!(t.nanos(), 1_500_000_000);
    let e = Timestamp::unix_epoch();
    assert_eq!((e.secs(), e.nanos()), (0, 0));
    assert_eq!(e.to_display_string(), "1970-01-01 00:00:00 UTC");
    assert_eq!(e.to_rfc3339(), "1970-01-01T00:00:00+00:00");
    assert_eq!(Timestamp::from_parts(1431648000, 5_000_000).unwrap().to_rfc3339(), "2015-05-15T00:00:00.005+00:00");
    assert!(Timestamp::now().secs() > 1_500_000_000);
    assert!(Timestamp::now().nanos() < 1_000_000_000);
}

#[test]
fn timestamps_follow_chrono_range() {
    assert!(Timestamp::from_parts(8_210_266_876_799, 0).is_some());
    assert!(Timestamp::from_parts(8_210_266_876_800, 0).is_none());
    assert!(Timestamp::from_parts(-8_334_601_228_800, 0).is_some());
    assert!(Timestamp::from_parts(-8_334_601_228_801, 0).is_none());
    assert!(Timestamp::from_parts(119, 1_999_999_999).is_some());
    assert!(Timestamp::from_parts(120, 1_000_000_000).is_none());
    assert!(Timestamp::from_parts(-1, 1_500_000_000).is_some());
    assert!(Timestamp::from_parts(59, 2_000_000_000).is_none());
}
