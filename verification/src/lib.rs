//! A typed transaction layer over the sled embedded key-value engine.
//!
//! The engine stores raw bytes; this crate adds statically typed tree
//! handles, typed per-attempt transactional views, and an entry point that
//! runs a caller-supplied closure under the engine's conflict-retrying
//! transaction runner. Keys and values are carried through a verified
//! serialization boundary (the [`kv::KV`] capability).

pub mod engine;
pub mod errors;
pub mod kv;
pub mod transaction;
pub mod tree;
