# event_store

An event store whose core is verified with Verus.

Events carry a namespace and a type, a context (creation time, action,
subject) and a UUID. They are saved to Postgres, emitted to subscribers over
AMQP, and aggregated into entities, with aggregate results cached by an
identifier of the query that selects their events.

## Layout

- `src/` — the verified library
  - `text.rs` — string helpers (hex and decimal writing, trimming, splitting)
  - `attrs.rs`, `derive.rs` — what the `Events` derive reads from an item:
    `#[event_store(...)]` attributes, names, namespaces, renames
  - `ident.rs` — the identity check made when a stored event is read back,
    including the legacy `namespace.Type` form
  - `time.rs`, `event.rs` — timestamps (through chrono), events and contexts
  - `query.rs` — Postgres queries, their cache identifiers (SHA-256, through
    sha2) and the time-ordered query wrapper
  - `aggregate.rs` — the `Aggregator` trait, folding events, the steps of an
    aggregation between cache and store, and the law that a cached aggregate
    brought up to date equals the aggregate over all events
  - `store.rs` — the decisions of saving, emitting, subscribing and replaying
  - `testhelpers.rs` — a counter domain used by the tests
- `tests/` — tests on concrete values
- `app/` — the code around the library: the derive's code generation (syn,
  quote), JSON forms (serde), Postgres storage and caching (postgres, r2d2),
  AMQP (lapin-futures) and the store that runs the library's decisions.
