//! Plain-value domain types.
//!
//! The node speaks in fixed-width identifiers (20-byte addresses,
//! 32-byte hashes and storage words) and in block references that are
//! either a number or a symbolic tag. Each is held here as plain bytes
//! or an enum, so that the encoding rules over them can be verified.

use vstd::prelude::*;

verus! {

/// A 20-byte account address, big-endian.
#[derive(Debug, PartialEq, Eq, Clone, Copy)]
pub struct Address(pub [u8; 20]);

/// A 32-byte identifier (block hash or transaction hash), big-endian.
#[derive(Debug, PartialEq, Eq, Clone, Copy)]
pub struct H256(pub [u8; 32]);

/// A 256-bit word (storage key, nonce, fee), big-endian bytes.
#[derive(Debug, PartialEq, Eq, Clone, Copy)]
pub struct Word(pub [u8; 32]);

impl Word {
    /// The word whose value is `n`: the low eight bytes hold `n`
    /// big-endian, the rest are zero.
    pub fn from_u64(n: u64) -> (r: Word)
        ensures
            forall|i: int| 0 <= i < 24 ==> r.0@[i] == 0u8,
            forall|i: int|
                24 <= i < 32 ==> r.0@[i] == ((n >> ((31 - i) * 8)) & 0xff) as u8,
    {
        let mut bytes: [u8; 32] = [0u8; 32];
        let mut k: usize = 0;
        while k < 8
            invariant
                k <= 8,
                bytes@.len() == 32,
                forall|i: int| 0 <= i < 24 ==> bytes@[i] == 0u8,
                forall|i: int| 24 + k <= i < 32 ==> bytes@[i] == 0u8,
                forall|i: int|
                    24 <= i < 24 + k ==> bytes@[i] == ((n >> ((31 - i) * 8)) & 0xff) as u8,
            decreases 8 - k,
        {
            let shift: u64 = ((7 - k) as u64) * 8;
            bytes[24 + k] = ((n >> shift) & 0xff) as u8;
            k = k + 1;
        }
        Word(bytes)
    }
}

/// A block reference: a concrete number or a symbolic tag.
#[derive(Debug, PartialEq, Eq, Clone, Copy)]
pub enum BlockNumber {
    Latest,
    Finalized,
    Safe,
    Earliest,
    Pending,
    Number(u64),
}

/// Capture options for the step-by-step tracer. The wire field names
/// differ from these field names; the request builders pin them.
#[derive(Debug, PartialEq, Eq, Clone, Copy)]
pub struct GethLoggerConfig {
    /// enable memory capture
    pub enable_memory: bool,
    /// disable stack capture
    pub disable_stack: bool,
    /// disable storage capture
    pub disable_storage: bool,
    /// enable return data capture
    pub enable_return_data: bool,
}

impl Default for GethLoggerConfig {
    fn default() -> (r: Self)
        ensures
            r == (GethLoggerConfig {
                enable_memory: false,
                disable_stack: false,
                disable_storage: false,
                enable_return_data: true,
            }),
    {
        GethLoggerConfig {
            enable_memory: false,
            disable_stack: false,
            disable_storage: false,
            enable_return_data: true,
        }
    }
}

/// What a transport hands back when the exchange itself fails.
#[derive(Debug, PartialEq, Eq)]
pub struct TransportError {
    pub message: String,
}

/// The one client-level failure kind: every transport fault and every
/// response that does not decode to the expected shape ends up here,
/// carrying a description of the underlying cause.
#[derive(Debug, PartialEq, Eq)]
pub enum Error {
    JSONRpcError(String),
}

} // verus!
