//! Events and their context.
use vstd::prelude::*;
pub use crate::internals::{EventData, Events};
use crate::time::Timestamp;

verus! {

/// A JSON value of `serde_json`, carried through unread.
#[verifier::external_type_specification]
#[verifier::external_body]
pub struct ExJsonValue(serde_json::Value);

/// Event context
///
/// Contains metadata for event and, most importantly, the creation time
#[derive(Debug)]
pub struct EventContext {
    /// The action that caused the event, if recorded
    pub action: Option<String>,
    /// Optional event "subject" or metadata
    pub subject: Option<serde_json::Value>,
    /// Event creation time
    pub time: Timestamp,
}

/// Event with `EventData`, `EventContext` and a UUID (as its 128-bit value)
///
/// This is what gets stored in the store and emitted from the emitter
#[derive(Debug)]
pub struct Event<D> {
    /// Event data payload
    pub data: D,
    /// Event context
    pub context: EventContext,
    /// Event UUID
    pub id: u128,
}

/// A fresh random UUID from `uuid::Uuid::new_v4()`, as its 128-bit value.
/// uuid's source sets the version nibble to 4 and the variant bits to `10`;
/// the other bits are random.
#[verifier::external_body]
fn new_v4_uuid() -> (r: u128)
    ensures
        (r >> 76u128) & 0xfu128 == 4,
        (r >> 62u128) & 0x3u128 == 2,
{
    uuid::Uuid::new_v4().as_u128()
}

impl<D: EventData> Event<D> {
    /// Create a new event
    pub fn new(data: D, id: u128, context: EventContext) -> (r: Self)
        ensures
            r.data == data,
            r.id == id,
            r.context == context,
    {
        Event { data, context, id }
    }

    /// Create a new event from some data. `context.time` is set to now, `id` to a new V4 ID
    ///
    /// The rest of the context is left empty
    pub fn from_data(data: D) -> (r: Self)
        ensures
            r.data == data,
            r.context.action is None,
            r.context.subject is None,
            r.context.time.parts().0 >= 0,
            r.context.time.parts().1 < 1_000_000_000,
            (r.id >> 76u128) & 0xfu128 == 4,
            (r.id >> 62u128) & 0x3u128 == 2,
    {
        let id = new_v4_uuid();
        Event { data, id, context: EventContext { action: None, subject: None, time: Timestamp::now() } }
    }

    /// Create a copied event with the given ID
    pub fn with_id(self, id: u128) -> (r: Self)
        ensures
            r.id == id,
            r.data == self.data,
            r.context == self.context,
    {
        Event { id, ..self }
    }
}

} // verus!
