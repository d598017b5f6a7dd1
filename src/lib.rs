//! Periodically refreshed, concurrently read data snapshots: a chart series and
//! a status table, each held in its own lock and replaced wholesale.
pub mod refresher;
pub mod snapshot;
pub mod store;
pub mod text;
