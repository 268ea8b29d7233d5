//! Lifecycle status and full record of a rollup transaction, looked up by
//! its 32-byte hash.
//!
//! A hash may name an operation that started on the base chain (a priority
//! operation) or a transaction signed inside the rollup. The library decides
//! which storage lookups to make, in which order, and what the caller is told
//! once the answers are in. It never touches storage itself: a lookup is a
//! small state machine that hands out one [`storage::StorageQuery`] at a time
//! and is advanced with the [`storage::StorageAnswer`] that came back.

pub mod primitives;
pub mod status;
pub mod hex_codec;
pub mod signature;
pub mod records;
pub mod results;
pub mod storage;
pub mod model;
pub mod api;
pub mod lookup;
pub mod laws;
