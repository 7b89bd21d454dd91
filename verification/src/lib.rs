//! Search core for a BIP39 vanity-address miner.
//!
//! The library covers the logic of the search: scoring an address by its
//! zero nibbles, deriving an address from a mnemonic phrase, matching it
//! against a pattern, and the per-iteration decisions of a worker.
//! Randomness, hashing and key arithmetic come from outside crates through
//! trusted wrappers; everything around them is verified.

pub mod addr;
pub mod keys;
pub mod pattern;
pub mod report;
pub mod score;
pub mod search;
