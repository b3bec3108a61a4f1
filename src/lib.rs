//! A typed client core for a remote tabular-record store: field mapping,
//! query builders, update payloads, request planning, response checks,
//! pagination and the retry policy. The transport stays outside.

pub mod client;
pub mod error;
pub mod fields;
pub mod query;
pub mod retry;
pub mod stats;
pub mod update;
