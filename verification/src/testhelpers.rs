//! A pretend domain used to exercise the store: a counter and the events that
//! increment it.
use vstd::prelude::*;
use crate::aggregate::Aggregator;
use crate::derive::dotted;
use crate::event::{Event, EventData, Events};
use crate::query::PgQuery;
use crate::text::{decimal, decimal_string};

verus! {

/// An event that adds `num` to a counter
#[derive(Debug)]
pub struct TestEvent {
    /// The amount to add
    pub num: i32,
}

impl EventData for TestEvent {
    open spec fn obeys_event_data_spec() -> bool {
        true
    }

    open spec fn namespace_of() -> Seq<char> {
        "some_namespace"@
    }

    open spec fn type_of() -> Seq<char> {
        "TestEvent"@
    }

    fn event_namespace_and_type() -> (r: &'static str) {
        proof {
            reveal_strlit("some_namespace.TestEvent");
            reveal_strlit("some_namespace");
            reveal_strlit("TestEvent");
            reveal_strlit(".");
        }
        let r = "some_namespace.TestEvent";
        assert(r@ =~= dotted("some_namespace"@, "TestEvent"@));
        r
    }

    fn event_namespace() -> (r: &'static str) {
        "some_namespace"
    }

    fn event_type() -> (r: &'static str) {
        "TestEvent"
    }
}

/// Set of all events in the domain
#[derive(Debug)]
pub enum TestEvents {
    /// The counter is incremented
    Inc(Event<TestEvent>),
}

impl Events for TestEvents {}

/// Testing entity for a pretend domain
#[derive(Clone, Copy, Debug, PartialEq, Eq, Structural)]
pub struct TestCounterEntity {
    /// Current counter value
    pub counter: i32,
}

impl Default for TestCounterEntity {
    fn default() -> (r: Self)
        ensures
            r.counter == 0,
    {
        TestCounterEntity { counter: 0 }
    }
}

/// The amount an event adds to the counter.
pub open spec fn increment_of(event: TestEvents) -> int {
    match event {
        TestEvents::Inc(inc) => inc.data.num as int,
    }
}

impl Aggregator<TestEvents, String, PgQuery> for TestCounterEntity {
    open spec fn applied(acc: Self, event: TestEvents) -> Self {
        TestCounterEntity { counter: (acc.counter + increment_of(event)) as i32 }
    }

    open spec fn applicable(acc: Self, event: TestEvents) -> bool {
        i32::MIN <= acc.counter + increment_of(event) <= i32::MAX
    }

    open spec fn initial_state() -> Self {
        TestCounterEntity { counter: 0 }
    }

    open spec fn is_query_for(args: String, q: PgQuery) -> bool {
        q.query@ == "select * from events"@ && q.args@.len() == 0
    }

    fn apply_event(acc: Self, event: &TestEvents) -> (r: Self) {
        let counter = match event {
            TestEvents::Inc(inc) => acc.counter + inc.data.num,
        };
        TestCounterEntity { counter, ..acc }
    }

    fn can_apply(acc: &Self, event: &TestEvents) -> (r: bool) {
        let sum: i64 = match event {
            TestEvents::Inc(inc) => acc.counter as i64 + inc.data.num as i64,
        };
        i32::MIN as i64 <= sum && sum <= i32::MAX as i64
    }

    fn default_state() -> (r: Self) {
        TestCounterEntity { counter: 0 }
    }

    fn query(_query_args: String) -> (r: PgQuery) {
        PgQuery::new("select * from events", Vec::new())
    }
}

/// The number of milliseconds in a duration of `secs` seconds and `nanos`
/// nanoseconds.
pub fn millis_from_duration(secs: u64, nanos: u32) -> (r: u64)
    requires
        secs * 1000 + nanos / 1_000_000 <= u64::MAX,
    ensures
        r == secs * 1000 + nanos / 1_000_000,
{
    secs * 1000 + nanos as u64 / 1_000_000
}

/// The name of a test database: `eventstorerust-`, the time in milliseconds,
/// `-` and the suffix (`test` where none is given).
pub fn random_db_name(time_ms: u64, suffix: Option<&str>) -> (r: String)
    ensures
        r@ == "eventstorerust-"@ + decimal(time_ms as nat) + "-"@ + match suffix {
            Some(s) => s@,
            None => "test"@,
        },
{
    let mut s = String::from_str("eventstorerust-");
    let t = decimal_string(time_ms);
    s.append(t.as_str());
    s.append("-");
    match suffix {
        Some(x) => s.append(x),
        None => s.append("test"),
    }
    s
}

/// The statement that creates the database `db_id`.
pub fn create_database_statement(db_id: &str) -> (r: String)
    ensures
        r@ == "CREATE DATABASE \""@ + db_id@ + "\""@,
{
    let mut s = String::from_str("CREATE DATABASE \"");
    s.append(db_id);
    s.append("\"");
    s
}

/// The connection URL of the test database `db_id`.
pub fn database_url(db_id: &str) -> (r: String)
    ensures
        r@ == "postgres://postgres@localhost:5430/"@ + db_id@,
{
    let mut s = String::from_str("postgres://postgres@localhost:5430/");
    s.append(db_id);
    s
}

} // verus!

verus! {

/// The sum of the amounts that `events` add.
pub open spec fn total_increment(events: Seq<TestEvents>) -> int
    decreases events.len(),
{
    if events.len() == 0 {
        0
    } else {
        total_increment(events.drop_last()) + increment_of(events.last())
    }
}

/// Aggregating a counter adds up the amounts of its events (where no partial
/// sum overflows).
pub proof fn lemma_counter_is_sum(init: TestCounterEntity, events: Seq<TestEvents>)
    requires
        crate::aggregate::all_applicable::<TestCounterEntity, TestEvents, String, PgQuery>(
            init,
            events,
        ),
    ensures
        crate::aggregate::aggregated::<TestCounterEntity, TestEvents, String, PgQuery>(
            init,
            events,
        ).counter == init.counter + total_increment(events),
    decreases events.len(),
{
    if events.len() > 0 {
        let prefix = events.drop_last();
        assert forall|i: int| 0 <= i < prefix.len() implies #[trigger] TestCounterEntity::applicable(
            crate::aggregate::aggregated::<TestCounterEntity, TestEvents, String, PgQuery>(
                init,
                prefix.take(i),
            ),
            prefix[i],
        ) by {
            assert(prefix.take(i) =~= events.take(i));
            assert(TestCounterEntity::applicable(
                crate::aggregate::aggregated::<TestCounterEntity, TestEvents, String, PgQuery>(
                    init,
                    events.take(i),
                ),
                events[i],
            ));
        }
        lemma_counter_is_sum(init, prefix);
        let k = events.len() - 1;
        assert(events.take(k) =~= prefix);
        assert(TestCounterEntity::applicable(
            crate::aggregate::aggregated::<TestCounterEntity, TestEvents, String, PgQuery>(
                init,
                events.take(k),
            ),
            events[k],
        ));
    }
}

} // verus!
