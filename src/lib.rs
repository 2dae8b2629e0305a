//! Translation of JSON-shaped search requests into schema-checked query plans.
pub mod kv;
pub mod query;
pub mod schema;
pub mod search;
