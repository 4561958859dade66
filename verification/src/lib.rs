//! Verified core of a bridge that mirrors Bitcoin block statistics into a
//! SQL data store: configuration layering, block subsidy arithmetic, the
//! height ranges that synchronisation walks, and the rows written to the store.

pub mod config;
pub mod datastore;
pub mod modes;
pub mod text;
pub mod utils;
