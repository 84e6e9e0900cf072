//! The RPC client.
//!
//! One typed operation per supported method. Every operation issues
//! exactly one transport call — its contract pins the request appended
//! to the transport's log — and either returns the decoded result or
//! the one normalized failure kind. A transport fault and a response
//! of the wrong shape surface the same way; nothing is retried or
//! defaulted.

use vstd::prelude::*;
use crate::decode::{
    decode_address, decode_chain_id, decode_code, decode_hash, decode_prestate, decoded_address,
    decoded_chain_id, decoded_code, decoded_hash, entries_match, is_null_value, is_object_value,
    prestate_fields, unwrap_result_array, unwrapped_results,
};
use crate::json::{json_of, jsons_of, JsonValue};
use crate::request::{
    chain_id_req, chain_id_request, coinbase_req, coinbase_request, get_block_by_hash_req,
    get_block_by_hash_request, get_block_by_number_req, get_block_by_number_request, get_code_req,
    get_code_request, get_proof_req, get_proof_request, get_tx_by_hash_req, get_tx_by_hash_request,
    mine_req, mine_request, miner_start_req, miner_start_request, miner_stop_req,
    miner_stop_request, reset_req, reset_request, send_raw_transaction_req,
    send_raw_transaction_request, set_next_block_base_fee_per_gas_req,
    set_next_block_base_fee_per_gas_request, set_nonce_req, set_nonce_request,
    trace_block_by_hash_req, trace_block_by_hash_request, trace_block_by_number_req,
    trace_block_by_number_request, trace_block_prestate_req, trace_block_prestate_request,
    trace_tx_prestate_req, trace_tx_prestate_request, trace_tx_req, trace_tx_request,
};
use crate::transport::Transport;
use crate::types::{Address, BlockNumber, Error, H256, Word};

verus! {

/// A typed JSON-RPC client over an abstract transport. It holds
/// nothing but the transport handle: no cache, no cross-call state.
pub struct GethClient<P: Transport>(pub P);

impl<P: Transport> GethClient<P> {
    /// Generates a new `GethClient` instance.
    pub fn new(provider: P) -> (r: Self)
        ensures
            r.0 == provider,
    {
        GethClient(provider)
    }

    /// Calls `eth_coinbase`, returning the network's coinbase address.
    pub fn get_coinbase(&mut self) -> (r: Result<Address, Error>)
        ensures
            final(self).0.log() == old(self).0.log().push(coinbase_req()),
            match old(self).0.respond(coinbase_req()) {
                Some(resp) => match decoded_address(resp) {
                    Some(b) => r matches Ok(a) && a.0@ == b,
                    None => r matches Err(Error::JSONRpcError(_)),
                },
                None => r matches Err(Error::JSONRpcError(_)),
            },
    {
        match self.0.call(coinbase_request()) {
            Ok(v) => match decode_address(&v) {
                Some(a) => Ok(a),
                None => Err(Error::JSONRpcError(String::from_str("malformed address response"))),
            },
            Err(e) => Err(Error::JSONRpcError(e.message)),
        }
    }

    /// Calls `eth_chainId`, returning the chain id as a native
    /// integer: the response `0x1` decodes to `1`.
    pub fn get_chain_id(&mut self) -> (r: Result<u64, Error>)
        ensures
            final(self).0.log() == old(self).0.log().push(chain_id_req()),
            match old(self).0.respond(chain_id_req()) {
                Some(resp) => match decoded_chain_id(resp) {
                    Some(id) => r == Ok::<u64, Error>(id),
                    None => r matches Err(Error::JSONRpcError(_)),
                },
                None => r matches Err(Error::JSONRpcError(_)),
            },
    {
        match self.0.call(chain_id_request()) {
            Ok(v) => match decode_chain_id(&v) {
                Some(id) => Ok(id),
                None => Err(Error::JSONRpcError(String::from_str("malformed chain id response"))),
            },
            Err(e) => Err(Error::JSONRpcError(e.message)),
        }
    }

    /// Calls `eth_getBlockByHash`, always asking for full transaction
    /// objects, and returns the block payload.
    pub fn get_block_by_hash(&mut self, hash: H256) -> (r: Result<JsonValue, Error>)
        ensures
            final(self).0.log() == old(self).0.log().push(get_block_by_hash_req(hash)),
            match old(self).0.respond(get_block_by_hash_req(hash)) {
                Some(resp) => if resp is Object {
                    r matches Ok(out) && json_of(out) == resp
                } else {
                    r matches Err(Error::JSONRpcError(_))
                },
                None => r matches Err(Error::JSONRpcError(_)),
            },
    {
        match self.0.call(get_block_by_hash_request(hash)) {
            Ok(v) => if is_object_value(&v) {
                Ok(v)
            } else {
                Err(Error::JSONRpcError(String::from_str("malformed block response")))
            },
            Err(e) => Err(Error::JSONRpcError(e.message)),
        }
    }

    /// Calls `eth_getBlockByNumber`, always asking for full
    /// transaction objects, and returns the block payload.
    pub fn get_block_by_number(&mut self, block_num: BlockNumber) -> (r: Result<JsonValue, Error>)
        ensures
            final(self).0.log() == old(self).0.log().push(get_block_by_number_req(block_num)),
            match old(self).0.respond(get_block_by_number_req(block_num)) {
                Some(resp) => if resp is Object {
                    r matches Ok(out) && json_of(out) == resp
                } else {
                    r matches Err(Error::JSONRpcError(_))
                },
                None => r matches Err(Error::JSONRpcError(_)),
            },
    {
        match self.0.call(get_block_by_number_request(block_num)) {
            Ok(v) => if is_object_value(&v) {
                Ok(v)
            } else {
                Err(Error::JSONRpcError(String::from_str("malformed block response")))
            },
            Err(e) => Err(Error::JSONRpcError(e.message)),
        }
    }

    /// Calls `eth_getTransactionByHash` and returns the transaction
    /// payload.
    pub fn get_tx_by_hash(&mut self, hash: H256) -> (r: Result<JsonValue, Error>)
        ensures
            final(self).0.log() == old(self).0.log().push(get_tx_by_hash_req(hash)),
            match old(self).0.respond(get_tx_by_hash_req(hash)) {
                Some(resp) => if resp is Object {
                    r matches Ok(out) && json_of(out) == resp
                } else {
                    r matches Err(Error::JSONRpcError(_))
                },
                None => r matches Err(Error::JSONRpcError(_)),
            },
    {
        match self.0.call(get_tx_by_hash_request(hash)) {
            Ok(v) => if is_object_value(&v) {
                Ok(v)
            } else {
                Err(Error::JSONRpcError(String::from_str("malformed transaction response")))
            },
            Err(e) => Err(Error::JSONRpcError(e.message)),
        }
    }

    /// Calls `debug_traceBlockByHash` and unwraps each element's
    /// `result`, keeping the block's transaction order: element `i` of
    /// the output is the trace of transaction `i`.
    pub fn trace_block_by_hash(&mut self, hash: H256) -> (r: Result<Vec<JsonValue>, Error>)
        ensures
            final(self).0.log() == old(self).0.log().push(trace_block_by_hash_req(hash)),
            match old(self).0.respond(trace_block_by_hash_req(hash)) {
                Some(resp) => match unwrapped_results(resp) {
                    Some(inner) => r matches Ok(out) && jsons_of(out@) == inner,
                    None => r matches Err(Error::JSONRpcError(_)),
                },
                None => r matches Err(Error::JSONRpcError(_)),
            },
    {
        match self.0.call(trace_block_by_hash_request(hash)) {
            Ok(v) => match unwrap_result_array(v) {
                Some(out) => Ok(out),
                None => Err(Error::JSONRpcError(String::from_str("malformed trace response"))),
            },
            Err(e) => Err(Error::JSONRpcError(e.message)),
        }
    }

    /// Calls `debug_traceBlockByNumber` with the same unwrap rule as
    /// tracing by hash.
    pub fn trace_block_by_number(&mut self, block_num: BlockNumber) -> (r: Result<
        Vec<JsonValue>,
        Error,
    >)
        ensures
            final(self).0.log() == old(self).0.log().push(trace_block_by_number_req(block_num)),
            match old(self).0.respond(trace_block_by_number_req(block_num)) {
                Some(resp) => match unwrapped_results(resp) {
                    Some(inner) => r matches Ok(out) && jsons_of(out@) == inner,
                    None => r matches Err(Error::JSONRpcError(_)),
                },
                None => r matches Err(Error::JSONRpcError(_)),
            },
    {
        match self.0.call(trace_block_by_number_request(block_num)) {
            Ok(v) => match unwrap_result_array(v) {
                Some(out) => Ok(out),
                None => Err(Error::JSONRpcError(String::from_str("malformed trace response"))),
            },
            Err(e) => Err(Error::JSONRpcError(e.message)),
        }
    }

    /// Calls `debug_traceTransaction` for one transaction. Memory
    /// capture follows the caller's strictness flag; the other capture
    /// options are the defaults.
    pub fn trace_tx_by_hash(&mut self, hash: H256, check_mem_strict: bool) -> (r: Result<
        JsonValue,
        Error,
    >)
        ensures
            final(self).0.log() == old(self).0.log().push(trace_tx_req(hash, check_mem_strict)),
            match old(self).0.respond(trace_tx_req(hash, check_mem_strict)) {
                Some(resp) => if resp is Object {
                    r matches Ok(out) && json_of(out) == resp
                } else {
                    r matches Err(Error::JSONRpcError(_))
                },
                None => r matches Err(Error::JSONRpcError(_)),
            },
    {
        match self.0.call(trace_tx_request(hash, check_mem_strict)) {
            Ok(v) => if is_object_value(&v) {
                Ok(v)
            } else {
                Err(Error::JSONRpcError(String::from_str("malformed trace response")))
            },
            Err(e) => Err(Error::JSONRpcError(e.message)),
        }
    }

    /// Calls `debug_traceTransaction` under the prestate tracer and
    /// reads the address-to-state mapping, in response order.
    pub fn trace_tx_prestate_by_hash(&mut self, hash: H256) -> (r: Result<
        Vec<(Address, JsonValue)>,
        Error,
    >)
        ensures
            final(self).0.log() == old(self).0.log().push(trace_tx_prestate_req(hash)),
            match old(self).0.respond(trace_tx_prestate_req(hash)) {
                Some(resp) => match prestate_fields(resp) {
                    Some(fs) => r matches Ok(out) && entries_match(out@, fs),
                    None => r matches Err(Error::JSONRpcError(_)),
                },
                None => r matches Err(Error::JSONRpcError(_)),
            },
    {
        match self.0.call(trace_tx_prestate_request(hash)) {
            Ok(v) => match decode_prestate(v) {
                Some(out) => Ok(out),
                None => Err(Error::JSONRpcError(String::from_str("malformed prestate response"))),
            },
            Err(e) => Err(Error::JSONRpcError(e.message)),
        }
    }

    /// Calls `debug_traceBlockByHash` under the prestate tracer:
    /// unwraps each element's `result` and reads it as an
    /// address-to-state mapping, keeping transaction order.
    pub fn trace_block_prestate_by_hash(&mut self, hash: H256) -> (r: Result<
        Vec<Vec<(Address, JsonValue)>>,
        Error,
    >)
        ensures
            final(self).0.log() == old(self).0.log().push(trace_block_prestate_req(hash)),
            match old(self).0.respond(trace_block_prestate_req(hash)) {
                Some(resp) => match unwrapped_results(resp) {
                    Some(inner) => if forall|i: int|
                        0 <= i < inner.len() ==> prestate_fields(#[trigger] inner[i]) is Some {
                        r matches Ok(out) && out@.len() == inner.len() && forall|i: int|
                            0 <= i < inner.len() ==> entries_match(
                                out@[i]@,
                                prestate_fields(#[trigger] inner[i])->Some_0,
                            )
                    } else {
                        r matches Err(Error::JSONRpcError(_))
                    },
                    None => r matches Err(Error::JSONRpcError(_)),
                },
                None => r matches Err(Error::JSONRpcError(_)),
            },
    {
        let resp = match self.0.call(trace_block_prestate_request(hash)) {
            Ok(v) => v,
            Err(e) => { return Err(Error::JSONRpcError(e.message)) },
        };
        let ghost jresp = json_of(resp);
        let wrapped = match unwrap_result_array(resp) {
            Some(w) => w,
            None => {
                return Err(Error::JSONRpcError(String::from_str("malformed trace response")));
            },
        };
        let ghost inner = unwrapped_results(jresp)->Some_0;
        let mut out: Vec<Vec<(Address, JsonValue)>> = Vec::new();
        let mut i: usize = 0;
        let mut rest = wrapped;
        let n = rest.len();
        proof {
            assert(inner == jsons_of(rest@));
        }
        while i < n
            invariant
                i <= n,
                self.0.log() == old(self).0.log().push(trace_block_prestate_req(hash)),
                old(self).0.respond(trace_block_prestate_req(hash)) == Some(jresp),
                unwrapped_results(jresp) == Some(inner),
                n == inner.len(),
                rest@.len() == n - i,
                forall|k: int| 0 <= k < n - i ==> json_of(#[trigger] rest@[k]) == inner[k + i],
                out@.len() == i,
                forall|k: int| 0 <= k < i ==> prestate_fields(#[trigger] inner[k]) is Some,
                forall|k: int|
                    0 <= k < i ==> entries_match(
                        out@[k]@,
                        prestate_fields(#[trigger] inner[k])->Some_0,
                    ),
            decreases n - i,
        {
            let ghost pre_rest = rest@;
            let item = rest.remove(0);
            proof {
                assert(json_of(item) == inner[i as int]);
                assert forall|k: int| 0 <= k < n - i - 1 implies json_of(#[trigger] rest@[k])
                    == inner[k + i + 1] by {
                    assert(rest@[k] == pre_rest[k + 1]);
                }
            }
            match decode_prestate(item) {
                Some(entries) => {
                    out.push(entries);
                },
                None => {
                    proof {
                        assert(prestate_fields(inner[i as int]) is None);
                    }
                    return Err(Error::JSONRpcError(String::from_str(
                        "malformed prestate response",
                    )));
                },
            }
            i = i + 1;
        }
        Ok(out)
    }

    /// Calls `eth_getCode` and returns the contract's bytecode.
    pub fn get_code(&mut self, contract_address: Address, block_num: BlockNumber) -> (r: Result<
        Vec<u8>,
        Error,
    >)
        ensures
            final(self).0.log() == old(self).0.log().push(
                get_code_req(contract_address, block_num),
            ),
            match old(self).0.respond(get_code_req(contract_address, block_num)) {
                Some(resp) => match decoded_code(resp) {
                    Some(b) => r matches Ok(out) && out@ == b,
                    None => r matches Err(Error::JSONRpcError(_)),
                },
                None => r matches Err(Error::JSONRpcError(_)),
            },
    {
        match self.0.call(get_code_request(contract_address, block_num)) {
            Ok(v) => match decode_code(&v) {
                Some(b) => Ok(b),
                None => Err(Error::JSONRpcError(String::from_str("malformed code response"))),
            },
            Err(e) => Err(Error::JSONRpcError(e.message)),
        }
    }

    /// Calls `eth_getProof` for an account and its storage keys — each
    /// key serialized as `0x` plus 64 zero-padded lowercase digits —
    /// and returns the proof payload.
    pub fn get_proof(&mut self, account: Address, keys: Vec<Word>, block_num: BlockNumber) -> (r:
        Result<JsonValue, Error>)
        ensures
            final(self).0.log() == old(self).0.log().push(
                get_proof_req(account, keys@, block_num),
            ),
            match old(self).0.respond(get_proof_req(account, keys@, block_num)) {
                Some(resp) => if resp is Object {
                    r matches Ok(out) && json_of(out) == resp
                } else {
                    r matches Err(Error::JSONRpcError(_))
                },
                None => r matches Err(Error::JSONRpcError(_)),
            },
    {
        match self.0.call(get_proof_request(account, &keys, block_num)) {
            Ok(v) => if is_object_value(&v) {
                Ok(v)
            } else {
                Err(Error::JSONRpcError(String::from_str("malformed proof response")))
            },
            Err(e) => Err(Error::JSONRpcError(e.message)),
        }
    }

    /// Calls `miner_stop`, which makes the node stop mining blocks.
    pub fn miner_stop(&mut self) -> (r: Result<(), Error>)
        ensures
            final(self).0.log() == old(self).0.log().push(miner_stop_req()),
            match old(self).0.respond(miner_stop_req()) {
                Some(resp) => if resp is Null {
                    r == Ok::<(), Error>(())
                } else {
                    r matches Err(Error::JSONRpcError(_))
                },
                None => r matches Err(Error::JSONRpcError(_)),
            },
    {
        match self.0.call(miner_stop_request()) {
            Ok(v) => if is_null_value(&v) {
                Ok(())
            } else {
                Err(Error::JSONRpcError(String::from_str("unexpected result")))
            },
            Err(e) => Err(Error::JSONRpcError(e.message)),
        }
    }

    /// Calls `miner_start`, which makes the node start mining blocks.
    pub fn miner_start(&mut self) -> (r: Result<(), Error>)
        ensures
            final(self).0.log() == old(self).0.log().push(miner_start_req()),
            match old(self).0.respond(miner_start_req()) {
                Some(resp) => if resp is Null {
                    r == Ok::<(), Error>(())
                } else {
                    r matches Err(Error::JSONRpcError(_))
                },
                None => r matches Err(Error::JSONRpcError(_)),
            },
    {
        match self.0.call(miner_start_request()) {
            Ok(v) => if is_null_value(&v) {
                Ok(())
            } else {
                Err(Error::JSONRpcError(String::from_str("unexpected result")))
            },
            Err(e) => Err(Error::JSONRpcError(e.message)),
        }
    }

    /// Calls `anvil_mine`, advancing a forked development node by one
    /// block with a fixed interval.
    pub fn mine(&mut self) -> (r: Result<(), Error>)
        ensures
            final(self).0.log() == old(self).0.log().push(mine_req()),
            match old(self).0.respond(mine_req()) {
                Some(resp) => if resp is Null {
                    r == Ok::<(), Error>(())
                } else {
                    r matches Err(Error::JSONRpcError(_))
                },
                None => r matches Err(Error::JSONRpcError(_)),
            },
    {
        match self.0.call(mine_request()) {
            Ok(v) => if is_null_value(&v) {
                Ok(())
            } else {
                Err(Error::JSONRpcError(String::from_str("unexpected result")))
            },
            Err(e) => Err(Error::JSONRpcError(e.message)),
        }
    }

    /// Calls `anvil_reset`, repointing a forked development node at a
    /// new upstream URL and block.
    pub fn reset(&mut self, json_rpc_url: &str, block_number: u64) -> (r: Result<(), Error>)
        ensures
            final(self).0.log() == old(self).0.log().push(reset_req(json_rpc_url@, block_number)),
            match old(self).0.respond(reset_req(json_rpc_url@, block_number)) {
                Some(resp) => if resp is Null {
                    r == Ok::<(), Error>(())
                } else {
                    r matches Err(Error::JSONRpcError(_))
                },
                None => r matches Err(Error::JSONRpcError(_)),
            },
    {
        match self.0.call(reset_request(json_rpc_url, block_number)) {
            Ok(v) => if is_null_value(&v) {
                Ok(())
            } else {
                Err(Error::JSONRpcError(String::from_str("unexpected result")))
            },
            Err(e) => Err(Error::JSONRpcError(e.message)),
        }
    }

    /// Calls `anvil_setNonce`, overriding an address's nonce on a
    /// development node.
    pub fn set_nonce(&mut self, address: Address, nonce: Word) -> (r: Result<(), Error>)
        ensures
            final(self).0.log() == old(self).0.log().push(set_nonce_req(address, nonce)),
            match old(self).0.respond(set_nonce_req(address, nonce)) {
                Some(resp) => if resp is Null {
                    r == Ok::<(), Error>(())
                } else {
                    r matches Err(Error::JSONRpcError(_))
                },
                None => r matches Err(Error::JSONRpcError(_)),
            },
    {
        match self.0.call(set_nonce_request(address, nonce)) {
            Ok(v) => if is_null_value(&v) {
                Ok(())
            } else {
                Err(Error::JSONRpcError(String::from_str("unexpected result")))
            },
            Err(e) => Err(Error::JSONRpcError(e.message)),
        }
    }

    /// Calls `eth_sendRawTransaction` and returns the transaction
    /// hash the node answers with.
    pub fn send_raw_transaction(&mut self, raw_tx: Vec<u8>) -> (r: Result<H256, Error>)
        ensures
            final(self).0.log() == old(self).0.log().push(send_raw_transaction_req(raw_tx@)),
            match old(self).0.respond(send_raw_transaction_req(raw_tx@)) {
                Some(resp) => match decoded_hash(resp) {
                    Some(b) => r matches Ok(h) && h.0@ == b,
                    None => r matches Err(Error::JSONRpcError(_)),
                },
                None => r matches Err(Error::JSONRpcError(_)),
            },
    {
        match self.0.call(send_raw_transaction_request(&raw_tx)) {
            Ok(v) => match decode_hash(&v) {
                Some(h) => Ok(h),
                None => Err(Error::JSONRpcError(String::from_str("malformed hash response"))),
            },
            Err(e) => Err(Error::JSONRpcError(e.message)),
        }
    }

    /// Calls `anvil_setNextBlockBaseFeePerGas`, overriding the next
    /// block's base fee on a development node.
    pub fn set_next_block_base_fee_per_gas(&mut self, basefee: Word) -> (r: Result<(), Error>)
        ensures
            final(self).0.log() == old(self).0.log().push(
                set_next_block_base_fee_per_gas_req(basefee),
            ),
            match old(self).0.respond(set_next_block_base_fee_per_gas_req(basefee)) {
                Some(resp) => if resp is Null {
                    r == Ok::<(), Error>(())
                } else {
                    r matches Err(Error::JSONRpcError(_))
                },
                None => r matches Err(Error::JSONRpcError(_)),
            },
    {
        match self.0.call(set_next_block_base_fee_per_gas_request(basefee)) {
            Ok(v) => if is_null_value(&v) {
                Ok(())
            } else {
                Err(Error::JSONRpcError(String::from_str("unexpected result")))
            },
            Err(e) => Err(Error::JSONRpcError(e.message)),
        }
    }
}

} // verus!
