//! Verified core of an event store: event identities, derive-attribute
//! processing, query identifiers and the decisions of the store's workflows.

pub mod internals;
pub mod text;
pub mod attrs;
pub mod derive;
pub mod ident;
pub mod time;
pub mod event;
pub mod query;
pub mod aggregate;
pub mod store;
pub mod testhelpers;
