//! Verified core of the sequencer node binary: hex encoding of key material,
//! peer identities, validator key parsing, the genesis and on-disk layout that
//! bootstrap produces, and the startup decisions of a running node.

pub mod bootstrap;
pub mod config;
pub mod hex_codec;
pub mod identity;
pub mod keys;
pub mod laws;
pub mod node;
pub mod text;
