//! Synchronization engine for a storefront catalog mirror.
//!
//! The library holds the logic of the harvester: payload sanitization and
//! normalization, credential lifecycle decisions, per-entity change
//! detection, batch-wave planning, and the collection discovery walker.
//! Network and storage calls stay outside; every function here is a pure
//! step of the engine, stated and verified against its contract.

pub mod batch;
pub mod config;
pub mod code;
pub mod dec;
pub mod decide;
pub mod discovery;
pub mod error;
pub mod extract;
pub mod json;
pub mod model;
pub mod params;
pub mod parse;
pub mod query;
pub mod raw;
pub mod search;
pub mod status;
pub mod utils;
