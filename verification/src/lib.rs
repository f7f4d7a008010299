//! Key lifecycle control for a provider whose keys live in a PSA Crypto backend.
//!
//! A client names a key by a triple of application, provider and key name. The
//! backend names it by a number. This crate hands out those numbers, keeps the
//! mapping from triples to numbers in a store that the caller supplies, and
//! decides what has to happen to that mapping around each backend operation.

pub mod outside;
pub mod error;
pub mod key_info;
pub mod id_allocator;
pub mod lifecycle;
pub mod key_management;
pub mod memory_store;
