//! The lifecycle of an address lookup table: a capped, append-only list of
//! 32-byte addresses behind a fixed 56-byte header.
pub mod error;
pub mod instruction;
pub mod laws;
pub mod processor;
pub mod slot_hashes;
pub mod state;
