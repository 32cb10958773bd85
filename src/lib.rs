//! Account-bound encryption payloads for confidential transaction fields.
//!
//! The library keeps a per-chain cache of public encryption keys and proof
//! reference strings, builds the metadata that binds a proof to an account,
//! security zone and chain, and derives content identifiers for each value of
//! a proven ciphertext batch.

pub mod codec;
pub mod error;
pub mod types;
pub mod binding;
pub mod backend;
pub mod keys;
pub mod encryption;
