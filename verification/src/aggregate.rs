//! Aggregating entities from their events.
use vstd::prelude::*;
use crate::query::StoreQuery;
use crate::time::Timestamp;

verus! {

/// An entity built by applying events to a state, starting from a default state.
pub trait Aggregator<E, A, Q: StoreQuery>: Sized {
    /// The state after applying `event` to `acc`
    spec fn applied(acc: Self, event: E) -> Self;

    /// Whether `event` can be applied to `acc` (where applying it would fail,
    /// for instance by overflowing a counter, it cannot)
    spec fn applicable(acc: Self, event: E) -> bool;

    /// The state before any event
    spec fn initial_state() -> Self;

    /// Whether `q` is the query that selects the events of the entity for `args`
    spec fn is_query_for(args: A, q: Q) -> bool;

    /// Apply an event `E` to `acc`, returning a copy of `Self` with updated fields. Can also just
    /// return `acc` if nothing has changed.
    fn apply_event(acc: Self, event: &E) -> (r: Self)
        requires
            Self::applicable(acc, *event),
        ensures
            r == Self::applied(acc, *event),
    ;

    /// Whether `event` can be applied to `acc`
    fn can_apply(acc: &Self, event: &E) -> (r: bool)
        ensures
            r == Self::applicable(*acc, *event),
    ;

    /// The state before any event
    fn default_state() -> (r: Self)
        ensures
            r == Self::initial_state(),
    ;

    /// Produce a query object from some query arguments
    fn query(query_args: A) -> (r: Q)
        ensures
            Self::is_query_for(query_args, r),
    ;
}

/// The state reached by applying `events`, in order, to `init`.
pub open spec fn aggregated<T: Aggregator<E, A, Q>, E, A, Q: StoreQuery>(
    init: T,
    events: Seq<E>,
) -> T
    decreases events.len(),
{
    if events.len() == 0 {
        init
    } else {
        T::applied(aggregated::<T, E, A, Q>(init, events.drop_last()), events.last())
    }
}

/// Whether each of `events` can be applied to the state the earlier ones lead to.
pub open spec fn all_applicable<T: Aggregator<E, A, Q>, E, A, Q: StoreQuery>(
    init: T,
    events: Seq<E>,
) -> bool {
    forall|i: int|
        0 <= i < events.len() ==> #[trigger] T::applicable(
            aggregated::<T, E, A, Q>(init, events.take(i)),
            events[i],
        )
}

/// Applies `events`, in order, to `initial`.
pub fn aggregate_events<T: Aggregator<E, A, Q>, E, A, Q: StoreQuery>(
    initial: T,
    events: &Vec<E>,
) -> (r: T)
    requires
        all_applicable::<T, E, A, Q>(initial, events@),
    ensures
        r == aggregated::<T, E, A, Q>(initial, events@),
{
    let ghost init = initial;
    let mut acc = initial;
    let mut i: usize = 0;
    while i < events.len()
        invariant
            i <= events@.len(),
            acc == aggregated::<T, E, A, Q>(init, events@.take(i as int)),
            all_applicable::<T, E, A, Q>(init, events@),
        decreases events@.len() - i,
    {
        proof {
            assert(events@.take(i as int + 1).drop_last() =~= events@.take(i as int));
        }
        acc = T::apply_event(acc, &events[i]);
        i = i + 1;
    }
    assert(events@.take(events@.len() as int) =~= events@);
    acc
}

/// Applies `events`, in order, to `initial`, where each of them can be applied
/// to the state the earlier ones lead to; `None` where one cannot.
pub fn try_aggregate_events<T: Aggregator<E, A, Q>, E, A, Q: StoreQuery>(
    initial: T,
    events: &Vec<E>,
) -> (r: Option<T>)
    ensures
        r is Some <==> all_applicable::<T, E, A, Q>(initial, events@),
        r matches Some(state) ==> state == aggregated::<T, E, A, Q>(initial, events@),
{
    let ghost init = initial;
    let mut acc = initial;
    let mut i: usize = 0;
    while i < events.len()
        invariant
            i <= events@.len(),
            init == initial,
            acc == aggregated::<T, E, A, Q>(init, events@.take(i as int)),
            forall|j: int|
                0 <= j < i ==> #[trigger] T::applicable(
                    aggregated::<T, E, A, Q>(init, events@.take(j)),
                    events@[j],
                ),
        decreases events@.len() - i,
    {
        proof {
            assert(events@.take(i as int + 1).drop_last() =~= events@.take(i as int));
        }
        if !T::can_apply(&acc, &events[i]) {
            assert(!T::applicable(
                aggregated::<T, E, A, Q>(init, events@.take(i as int)),
                events@[i as int],
            ));
            return None;
        }
        acc = T::apply_event(acc, &events[i]);
        i = i + 1;
    }
    assert(events@.take(events@.len() as int) =~= events@);
    Some(acc)
}

/// The query for an aggregate and the key its cached state is stored under.
pub fn aggregate_query<T: Aggregator<E, A, Q>, E, A, Q: StoreQuery>(query_args: A) -> (r: (
    Q,
    String,
))
    ensures
        T::is_query_for(query_args, r.0),
        Q::obeys_query_spec() ==> r.1@ == r.0.id_of(),
{
    let store_query = T::query(query_args);
    let cache_key = store_query.unique_id();
    (store_query, cache_key)
}

/// Where aggregation starts from: the cached state and the time it was cached
/// at, or the default state and no time where nothing is cached.
pub fn aggregate_start<T: Aggregator<E, A, Q>, E, A, Q: StoreQuery>(
    cache_result: Option<(T, Timestamp)>,
) -> (r: (T, Option<Timestamp>))
    ensures
        match cache_result {
            Some((state, time)) => r.0 == state && r.1 == Some(time),
            None => r.0 == T::initial_state() && r.1 is None,
        },
{
    match cache_result {
        Some((state, time)) => (state, Some(time)),
        None => (T::default_state(), None),
    }
}

/// Where an aggregation stands between its calls to the cache and the store.
pub enum AggregatePhase<T, Q> {
    /// Waiting for the state cached under `key`; the events are then read with `query`
    ReadingCache { query: Q, key: String },
    /// Waiting for the events to apply to `start`; the result is cached under `key`
    ReadingEvents { key: String, start: T },
    /// Nothing more to do
    Finished,
}

/// What the cache or the store answered.
pub enum AggregateReply<T, E> {
    /// The state cached under the key and the time it was cached at, if any
    Cached(Option<(T, Timestamp)>),
    /// The events the store read, oldest first
    Read(Vec<E>),
}

/// What the store does next in an aggregation.
pub enum AggregateAction<T, Q> {
    /// Read the state cached under this key
    ReadCache(String),
    /// Read the events of this query, from this time on where one is given
    ReadEvents(Q, Option<Timestamp>),
    /// Save this state in the cache under this key, then return it
    SaveAndReturn(String, T),
    /// An event cannot be applied to the state the earlier ones lead to
    Refuse,
    /// The reply does not belong to the phase
    OutOfOrder,
}

/// The state aggregation starts from: the cached one, or the initial state.
pub open spec fn start_state<T: Aggregator<E, A, Q>, E, A, Q: StoreQuery>(
    cached: Option<(T, Timestamp)>,
) -> T {
    match cached {
        Some((state, _)) => state,
        None => T::initial_state(),
    }
}

/// The time events are read from: the time the state was cached at, if any.
pub open spec fn cached_since<T>(cached: Option<(T, Timestamp)>) -> Option<Timestamp> {
    match cached {
        Some((_, time)) => Some(time),
        None => None,
    }
}

/// The next phase and action of an aggregation, given the reply to the last action.
pub open spec fn next_aggregate<T: Aggregator<E, A, Q>, E, A, Q: StoreQuery>(
    phase: AggregatePhase<T, Q>,
    reply: AggregateReply<T, E>,
) -> (AggregatePhase<T, Q>, AggregateAction<T, Q>) {
    match phase {
        AggregatePhase::ReadingCache { query, key } => match reply {
            AggregateReply::Cached(cached) => (
                AggregatePhase::ReadingEvents {
                    key,
                    start: start_state::<T, E, A, Q>(cached),
                },
                AggregateAction::ReadEvents(query, cached_since(cached)),
            ),
            AggregateReply::Read(_) => (AggregatePhase::Finished, AggregateAction::OutOfOrder),
        },
        AggregatePhase::ReadingEvents { key, start } => match reply {
            AggregateReply::Read(events) => if all_applicable::<T, E, A, Q>(start, events@) {
                (
                    AggregatePhase::Finished,
                    AggregateAction::SaveAndReturn(key, aggregated::<T, E, A, Q>(start, events@)),
                )
            } else {
                (AggregatePhase::Finished, AggregateAction::Refuse)
            },
            AggregateReply::Cached(_) => (AggregatePhase::Finished, AggregateAction::OutOfOrder),
        },
        AggregatePhase::Finished => (AggregatePhase::Finished, AggregateAction::OutOfOrder),
    }
}

/// Starts aggregating the entity for `query_args`: build its query and read the
/// state cached under the query's identifier.
pub fn aggregate_begin<T: Aggregator<E, A, Q>, E, A, Q: StoreQuery>(query_args: A) -> (r: (
    AggregatePhase<T, Q>,
    AggregateAction<T, Q>,
))
    ensures
        r.0 matches AggregatePhase::ReadingCache { query, key } && T::is_query_for(
            query_args,
            query,
        ) && (Q::obeys_query_spec() ==> key@ == query.id_of()) && r.1 == AggregateAction::<T, Q>::ReadCache(
            key,
        ),
{
    let (query, key) = aggregate_query::<T, E, A, Q>(query_args);
    let read = key.clone();
    (AggregatePhase::ReadingCache { query, key }, AggregateAction::ReadCache(read))
}

/// The next step of an aggregation, given the reply to the last action.
pub fn aggregate_step<T: Aggregator<E, A, Q>, E, A, Q: StoreQuery>(
    phase: AggregatePhase<T, Q>,
    reply: AggregateReply<T, E>,
) -> (r: (AggregatePhase<T, Q>, AggregateAction<T, Q>))
    ensures
        r == next_aggregate::<T, E, A, Q>(phase, reply),
{
    match phase {
        AggregatePhase::ReadingCache { query, key } => match reply {
            AggregateReply::Cached(cached) => {
                let (start, since) = aggregate_start::<T, E, A, Q>(cached);
                (AggregatePhase::ReadingEvents { key, start }, AggregateAction::ReadEvents(query, since))
            },
            AggregateReply::Read(_) => (AggregatePhase::Finished, AggregateAction::OutOfOrder),
        },
        AggregatePhase::ReadingEvents { key, start } => match reply {
            AggregateReply::Read(events) => match try_aggregate_events::<T, E, A, Q>(start, &events) {
                Some(state) => (AggregatePhase::Finished, AggregateAction::SaveAndReturn(key, state)),
                None => (AggregatePhase::Finished, AggregateAction::Refuse),
            },
            AggregateReply::Cached(_) => (AggregatePhase::Finished, AggregateAction::OutOfOrder),
        },
        AggregatePhase::Finished => (AggregatePhase::Finished, AggregateAction::OutOfOrder),
    }
}

/// An aggregation reads the state cached under its key, then the events of its
/// query from the time that state was cached at (all of them where nothing is
/// cached), and then saves under the same key, and returns, the state those
/// events lead to from the cached state (or from the initial state). It writes
/// and emits no event. Where one of the events cannot be applied, it refuses.
pub proof fn lemma_aggregate_run<T: Aggregator<E, A, Q>, E, A, Q: StoreQuery>(
    query: Q,
    key: String,
    cached: Option<(T, Timestamp)>,
    events: Vec<E>,
)
    ensures
        ({
            let (after_cache, read) = next_aggregate::<T, E, A, Q>(
                AggregatePhase::ReadingCache { query, key },
                AggregateReply::Cached(cached),
            );
            let start = start_state::<T, E, A, Q>(cached);
            &&& read == AggregateAction::<T, Q>::ReadEvents(query, cached_since(cached))
            &&& next_aggregate::<T, E, A, Q>(after_cache, AggregateReply::Read(events)) == if all_applicable::<
                T,
                E,
                A,
                Q,
            >(start, events@) {
                (
                    AggregatePhase::<T, Q>::Finished,
                    AggregateAction::<T, Q>::SaveAndReturn(key, aggregated::<T, E, A, Q>(start, events@)),
                )
            } else {
                (AggregatePhase::<T, Q>::Finished, AggregateAction::<T, Q>::Refuse)
            }
        }),
{
}

/// Applying events in two batches gives the state that applying them all at once
/// gives: a cached aggregate over the earlier events, brought up to date with the
/// later ones, is the aggregate over all of them.
pub proof fn lemma_aggregate_in_batches<T: Aggregator<E, A, Q>, E, A, Q: StoreQuery>(
    init: T,
    earlier: Seq<E>,
    later: Seq<E>,
)
    ensures
        aggregated::<T, E, A, Q>(aggregated::<T, E, A, Q>(init, earlier), later) == aggregated::<
            T,
            E,
            A,
            Q,
        >(init, earlier + later),
    decreases later.len(),
{
    if later.len() > 0 {
        lemma_aggregate_in_batches::<T, E, A, Q>(init, earlier, later.drop_last());
        assert((earlier + later).drop_last() =~= earlier + later.drop_last());
        assert((earlier + later).last() == later.last());
    } else {
        assert(earlier + later =~= earlier);
    }
}

} // verus!
