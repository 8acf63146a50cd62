//! Traits implemented by the event types of a domain.
use vstd::prelude::*;
use crate::derive::dotted;

verus! {

/// Trait implemented by any set of entity creation events
pub trait EventStoreCreateEvents {}

/// Trait implemented by any set of entity update events
pub trait EventStoreUpdateEvents {}

/// Implemented by every type that is the data of an event: it names the event's
/// namespace and type.
///
/// The derive macro writes this implementation without a proof; an
/// implementation that proves the promises below says so with
/// `obeys_event_data_spec`, and only for those do the promises hold.
pub trait EventData {
    /// Whether this implementation keeps the promises of the methods below
    open spec fn obeys_event_data_spec() -> bool {
        false
    }

    /// The event's namespace, like `accounts` (where the promises are kept)
    open spec fn namespace_of() -> Seq<char> {
        Seq::empty()
    }

    /// The event's type, like `UserCreated` (where the promises are kept)
    open spec fn type_of() -> Seq<char> {
        Seq::empty()
    }

    /// `namespace.Type`
    fn event_namespace_and_type() -> (r: &'static str)
        ensures
            Self::obeys_event_data_spec() ==> r@ == dotted(Self::namespace_of(), Self::type_of()),
    ;

    /// The event's namespace
    fn event_namespace() -> (r: &'static str)
        ensures
            Self::obeys_event_data_spec() ==> r@ == Self::namespace_of(),
    ;

    /// The event's type
    fn event_type() -> (r: &'static str)
        ensures
            Self::obeys_event_data_spec() ==> r@ == Self::type_of(),
    ;
}

/// Implemented by a set of the events of a domain.
pub trait Events {}

} // verus!
