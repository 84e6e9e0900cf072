//! A typed JSON-RPC client core for Ethereum-compatible nodes.
//!
//! The crate shapes domain-level queries (fetch a block, trace a
//! transaction, read a storage proof, drive a development node) into
//! JSON-RPC requests, decodes the JSON results into structured values,
//! and folds every transport or decode failure into one error kind.
//! The transport itself is a capability supplied at construction; the
//! client keeps no state beyond that handle.

pub mod client;
pub mod decode;
pub mod hex;
pub mod json;
pub mod request;
pub mod transport;
pub mod types;
