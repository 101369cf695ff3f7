//! A verified model of a minimal quote service: a single record type,
//! a store of records keyed by unique identifiers, and the create /
//! read-all / update / delete / health operations over it.

pub mod quote;
pub mod store;
pub mod laws;
pub mod handlers;
