//! Verified core of an inventory lifecycle service.
//!
//! An inventory record travels through a three-stage pipeline: request
//! validation, a persistence operation against a key/value store, and a
//! best-effort change event published to a message broker.  The modules here
//! hold the decisions and translations of that pipeline; the network edges
//! (HTTP routing, the store client, the broker producer) live outside and
//! hand these functions plain values.

pub mod dbutil;
pub mod digits;
pub mod errors;
pub mod inventory;
pub mod models;
pub mod pipeline;
pub mod ready;
