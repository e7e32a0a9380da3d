//! Decision logic of a personal time-series service: resolving time filters,
//! planning store queries, decimating result sets, partitioning weight
//! samples into comparison windows, normalising ingested points, and keeping
//! the registry of emitters.
//!
//! The library performs no I/O. Callers run the store and the HTTP layer and
//! hand plain values in and out.
//!
//! Everything here is verified but for the calls into other crates, which are
//! confined to small wrappers whose contracts are taken on trust: reading and
//! printing instants and reading the clock through `jiff` (`instant`), random
//! token characters through `rand` (`utils`), and reading and printing JSON
//! through `serde_json` (`json`).

pub mod auth;
pub mod dashboards;
pub mod data;
pub mod emitters;
pub mod endpoints;
pub mod error;
pub mod gps;
pub mod instant;
pub mod json;
pub mod time_filter;
pub mod utils;
