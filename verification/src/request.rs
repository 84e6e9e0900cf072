//! Request shaping.
//!
//! One builder per supported RPC method. Each builder's contract pins
//! the method name, the parameter count, the parameter order and every
//! parameter's exact JSON shape, so a caller knows byte-for-byte what
//! goes to the node.

use vstd::prelude::*;
use crate::hex::{
    bytes_hex, encode_hex_prefixed, encode_quantity_bytes, encode_quantity_u64, quantity_chars,
    u64_be_bytes, with_0x,
};
use crate::json::{json_of, Json, JsonField, JsonValue};
use crate::types::{Address, BlockNumber, GethLoggerConfig, H256, Word};

verus! {

/// A JSON-RPC request: a method name and its positional parameters.
#[derive(Debug, PartialEq, Eq)]
pub struct RpcRequest {
    pub method: String,
    pub params: Vec<JsonValue>,
}

/// The mathematical shape of a request.
#[verifier::ext_equal]
pub struct RpcRequestModel {
    pub method: Seq<char>,
    pub params: Seq<Json>,
}

impl View for RpcRequest {
    type V = RpcRequestModel;

    open spec fn view(&self) -> RpcRequestModel {
        RpcRequestModel {
            method: self.method@,
            params: Seq::new(self.params@.len(), |i: int| json_of(self.params@[i])),
        }
    }
}

/// An address on the wire: `0x` and 40 lowercase digits.
pub open spec fn address_text(a: Address) -> Seq<char> {
    with_0x(bytes_hex(a.0@))
}

/// A hash on the wire: `0x` and 64 lowercase digits.
pub open spec fn hash_text(h: H256) -> Seq<char> {
    with_0x(bytes_hex(h.0@))
}

/// A storage key on the wire: `0x` and 64 lowercase digits,
/// left-zero-padded whatever the key's value.
pub open spec fn word_key_text(w: Word) -> Seq<char> {
    with_0x(bytes_hex(w.0@))
}

/// A byte string on the wire: `0x` and two digits per byte.
pub open spec fn bytes_text(b: Seq<u8>) -> Seq<char> {
    with_0x(bytes_hex(b))
}

/// A 64-bit quantity on the wire: `0x` and minimal hex digits.
pub open spec fn u64_quantity_text(n: u64) -> Seq<char> {
    with_0x(quantity_chars(u64_be_bytes(n)))
}

/// A word-sized quantity on the wire: `0x` and minimal hex digits.
pub open spec fn word_quantity_text(w: Word) -> Seq<char> {
    with_0x(quantity_chars(w.0@))
}

/// A block reference on the wire: its tag name, or a quantity.
pub open spec fn block_number_text(b: BlockNumber) -> Seq<char> {
    match b {
        BlockNumber::Latest => "latest"@,
        BlockNumber::Finalized => "finalized"@,
        BlockNumber::Safe => "safe"@,
        BlockNumber::Earliest => "earliest"@,
        BlockNumber::Pending => "pending"@,
        BlockNumber::Number(n) => u64_quantity_text(n),
    }
}

pub fn encode_address(a: Address) -> (r: String)
    ensures
        r@ == address_text(a),
{
    encode_hex_prefixed(a.0.as_slice())
}

pub fn encode_hash(h: H256) -> (r: String)
    ensures
        r@ == hash_text(h),
{
    encode_hex_prefixed(h.0.as_slice())
}

pub fn encode_word_key(w: Word) -> (r: String)
    ensures
        r@ == word_key_text(w),
{
    encode_hex_prefixed(w.0.as_slice())
}

pub fn encode_word_quantity(w: Word) -> (r: String)
    ensures
        r@ == word_quantity_text(w),
{
    encode_quantity_bytes(w.0.as_slice())
}

pub fn encode_block_number(b: BlockNumber) -> (r: String)
    ensures
        r@ == block_number_text(b),
{
    match b {
        BlockNumber::Latest => String::from_str("latest"),
        BlockNumber::Finalized => String::from_str("finalized"),
        BlockNumber::Safe => String::from_str("safe"),
        BlockNumber::Earliest => String::from_str("earliest"),
        BlockNumber::Pending => String::from_str("pending"),
        BlockNumber::Number(n) => encode_quantity_u64(n),
    }
}

/// A storage key's wire string is exactly `0x` followed by 64
/// lowercase hex digits, left-zero-padded, whatever the key's numeric
/// value.
pub proof fn lemma_word_key_shape(w: Word)
    ensures
        word_key_text(w).len() == 66,
        word_key_text(w)[0] == '0',
        word_key_text(w)[1] == 'x',
        forall|i: int| 2 <= i < 66 ==> crate::hex::is_lower_hex_digit(#[trigger] word_key_text(w)[i]),
{
    crate::hex::lemma_padded_word_shape(w.0@);
}

/// The tracer options object: four booleans under their wire names, in
/// this order and nothing else.
pub open spec fn logger_config_json(c: GethLoggerConfig) -> Json {
    Json::Object(
        seq![
            JsonField { name: "EnableMemory"@, value: Json::Bool(c.enable_memory) },
            JsonField { name: "DisableStack"@, value: Json::Bool(c.disable_stack) },
            JsonField { name: "DisableStorage"@, value: Json::Bool(c.disable_storage) },
            JsonField { name: "EnableReturnData"@, value: Json::Bool(c.enable_return_data) },
        ],
    )
}

/// The prestate tracer directive: only the tracer name, none of the
/// boolean capture flags.
pub open spec fn prestate_config_json() -> Json {
    Json::Object(seq![JsonField { name: "tracer"@, value: Json::Text("prestateTracer"@) }])
}

fn logger_config_value(c: GethLoggerConfig) -> (r: JsonValue)
    ensures
        json_of(r) == logger_config_json(c),
{
    let mut fields: Vec<(String, JsonValue)> = Vec::new();
    fields.push((String::from_str("EnableMemory"), JsonValue::Bool(c.enable_memory)));
    fields.push((String::from_str("DisableStack"), JsonValue::Bool(c.disable_stack)));
    fields.push((String::from_str("DisableStorage"), JsonValue::Bool(c.disable_storage)));
    fields.push((String::from_str("EnableReturnData"), JsonValue::Bool(c.enable_return_data)));
    let ghost fv = fields@;
    let r = JsonValue::Object(fields);
    proof {
        reveal_with_fuel(json_of, 2);
        let lhs = json_of(r)->Object_0;
        let rhs = logger_config_json(c)->Object_0;
        assert(fv.len() == 4);
        assert(lhs[0] =~~= rhs[0]);
        assert(lhs[1] =~~= rhs[1]);
        assert(lhs[2] =~~= rhs[2]);
        assert(lhs[3] =~~= rhs[3]);
        assert(lhs =~= rhs);
        assert(json_of(r) == logger_config_json(c));
    }
    r
}

fn prestate_config_value() -> (r: JsonValue)
    ensures
        json_of(r) == prestate_config_json(),
{
    let mut fields: Vec<(String, JsonValue)> = Vec::new();
    fields.push((String::from_str("tracer"), JsonValue::Text(String::from_str("prestateTracer"))));
    let ghost fv = fields@;
    let r = JsonValue::Object(fields);
    proof {
        reveal_with_fuel(json_of, 2);
        let lhs = json_of(r)->Object_0;
        let rhs = prestate_config_json()->Object_0;
        assert(fv.len() == 1);
        assert(lhs[0].name == "tracer"@);
        assert(lhs[0].value == Json::Text("prestateTracer"@));
        assert(lhs[0] =~~= rhs[0]);
        assert(lhs =~= rhs);
        assert(json_of(r) == prestate_config_json());
    }
    r
}

/// The storage keys of a proof request: one full-width padded hex
/// string per key, in the keys' order.
pub open spec fn proof_keys_json(keys: Seq<Word>) -> Json {
    Json::Array(
        Seq::new(
            keys.len(),
            |i: int|
                if 0 <= i < keys.len() {
                    Json::Text(word_key_text(keys[i]))
                } else {
                    Json::Null
                },
        ),
    )
}

fn proof_keys_value(keys: &Vec<Word>) -> (r: JsonValue)
    ensures
        json_of(r) == proof_keys_json(keys@),
{
    let mut items: Vec<JsonValue> = Vec::new();
    let mut i: usize = 0;
    while i < keys.len()
        invariant
            i <= keys@.len(),
            items@.len() == i,
            forall|k: int|
                0 <= k < i ==> json_of(#[trigger] items@[k]) == Json::Text(
                    word_key_text(keys@[k]),
                ),
        decreases keys@.len() - i,
    {
        items.push(JsonValue::Text(encode_word_key(keys[i])));
        i = i + 1;
    }
    let ghost iv = items@;
    let r = JsonValue::Array(items);
    proof {
        reveal_with_fuel(json_of, 2);
        let lhs = json_of(r)->Array_0;
        let rhs = proof_keys_json(keys@)->Array_0;
        assert forall|k: int| 0 <= k < iv.len() implies lhs[k] == rhs[k] by {
            assert(json_of(iv[k]) == Json::Text(word_key_text(keys@[k])));
        }
        assert(lhs =~= rhs);
        assert(json_of(r) == proof_keys_json(keys@));
    }
    r
}

/// The capture options a default trace call sends: stack and storage
/// kept, return data on, memory off.
pub open spec fn default_logger_config() -> GethLoggerConfig {
    GethLoggerConfig {
        enable_memory: false,
        disable_stack: false,
        disable_storage: false,
        enable_return_data: true,
    }
}

/// `eth_coinbase`, no parameters.
pub open spec fn coinbase_req() -> RpcRequestModel {
    RpcRequestModel { method: "eth_coinbase"@, params: Seq::<Json>::empty() }
}

pub fn coinbase_request() -> (r: RpcRequest)
    ensures
        r@ == coinbase_req(),
{
    let r = RpcRequest { method: String::from_str("eth_coinbase"), params: Vec::new() };
    proof {
        assert(r@.params =~= coinbase_req().params);
        assert(r@ =~= coinbase_req());
    }
    r
}

/// `eth_chainId`, no parameters.
pub open spec fn chain_id_req() -> RpcRequestModel {
    RpcRequestModel { method: "eth_chainId"@, params: Seq::<Json>::empty() }
}

pub fn chain_id_request() -> (r: RpcRequest)
    ensures
        r@ == chain_id_req(),
{
    let r = RpcRequest { method: String::from_str("eth_chainId"), params: Vec::new() };
    proof {
        assert(r@.params =~= chain_id_req().params);
        assert(r@ =~= chain_id_req());
    }
    r
}

/// `eth_getBlockByHash`: the hash, then the full-transactions flag,
/// which is always `true`.
pub open spec fn get_block_by_hash_req(hash: H256) -> RpcRequestModel {
    RpcRequestModel {
        method: "eth_getBlockByHash"@,
        params: seq![Json::Text(hash_text(hash)), Json::Bool(true)],
    }
}

pub fn get_block_by_hash_request(hash: H256) -> (r: RpcRequest)
    ensures
        r@ == get_block_by_hash_req(hash),
{
    let mut params: Vec<JsonValue> = Vec::new();
    params.push(JsonValue::Text(encode_hash(hash)));
    params.push(JsonValue::Bool(true));
    let r = RpcRequest { method: String::from_str("eth_getBlockByHash"), params };
    proof {
        assert(r@.params =~= get_block_by_hash_req(hash).params);
        assert(r@ =~= get_block_by_hash_req(hash));
    }
    r
}

/// `eth_getBlockByNumber`: the block reference, then the
/// full-transactions flag, which is always `true`.
pub open spec fn get_block_by_number_req(block_num: BlockNumber) -> RpcRequestModel {
    RpcRequestModel {
        method: "eth_getBlockByNumber"@,
        params: seq![Json::Text(block_number_text(block_num)), Json::Bool(true)],
    }
}

pub fn get_block_by_number_request(block_num: BlockNumber) -> (r: RpcRequest)
    ensures
        r@ == get_block_by_number_req(block_num),
{
    let mut params: Vec<JsonValue> = Vec::new();
    params.push(JsonValue::Text(encode_block_number(block_num)));
    params.push(JsonValue::Bool(true));
    let r = RpcRequest { method: String::from_str("eth_getBlockByNumber"), params };
    proof {
        assert(r@.params =~= get_block_by_number_req(block_num).params);
        assert(r@ =~= get_block_by_number_req(block_num));
    }
    r
}

/// `eth_getTransactionByHash`: the transaction hash alone.
pub open spec fn get_tx_by_hash_req(hash: H256) -> RpcRequestModel {
    RpcRequestModel {
        method: "eth_getTransactionByHash"@,
        params: seq![Json::Text(hash_text(hash))],
    }
}

pub fn get_tx_by_hash_request(hash: H256) -> (r: RpcRequest)
    ensures
        r@ == get_tx_by_hash_req(hash),
{
    let mut params: Vec<JsonValue> = Vec::new();
    params.push(JsonValue::Text(encode_hash(hash)));
    let r = RpcRequest { method: String::from_str("eth_getTransactionByHash"), params };
    proof {
        assert(r@.params =~= get_tx_by_hash_req(hash).params);
        assert(r@ =~= get_tx_by_hash_req(hash));
    }
    r
}

/// `debug_traceBlockByHash`: the hash, then the default capture
/// options.
pub open spec fn trace_block_by_hash_req(hash: H256) -> RpcRequestModel {
    RpcRequestModel {
        method: "debug_traceBlockByHash"@,
        params: seq![Json::Text(hash_text(hash)), logger_config_json(default_logger_config())],
    }
}

pub fn trace_block_by_hash_request(hash: H256) -> (r: RpcRequest)
    ensures
        r@ == trace_block_by_hash_req(hash),
{
    let mut params: Vec<JsonValue> = Vec::new();
    params.push(JsonValue::Text(encode_hash(hash)));
    params.push(logger_config_value(GethLoggerConfig::default()));
    let r = RpcRequest { method: String::from_str("debug_traceBlockByHash"), params };
    proof {
        assert(r@.params =~= trace_block_by_hash_req(hash).params);
        assert(r@ =~= trace_block_by_hash_req(hash));
    }
    r
}

/// `debug_traceBlockByNumber`: the block reference, then the default
/// capture options.
pub open spec fn trace_block_by_number_req(block_num: BlockNumber) -> RpcRequestModel {
    RpcRequestModel {
        method: "debug_traceBlockByNumber"@,
        params: seq![
            Json::Text(block_number_text(block_num)),
            logger_config_json(default_logger_config()),
        ],
    }
}

pub fn trace_block_by_number_request(block_num: BlockNumber) -> (r: RpcRequest)
    ensures
        r@ == trace_block_by_number_req(block_num),
{
    let mut params: Vec<JsonValue> = Vec::new();
    params.push(JsonValue::Text(encode_block_number(block_num)));
    params.push(logger_config_value(GethLoggerConfig::default()));
    let r = RpcRequest { method: String::from_str("debug_traceBlockByNumber"), params };
    proof {
        assert(r@.params =~= trace_block_by_number_req(block_num).params);
        assert(r@ =~= trace_block_by_number_req(block_num));
    }
    r
}

/// `debug_traceTransaction`: the hash, then the default capture
/// options except that memory capture follows the caller's strictness
/// flag.
pub open spec fn trace_tx_req(hash: H256, check_mem_strict: bool) -> RpcRequestModel {
    RpcRequestModel {
        method: "debug_traceTransaction"@,
        params: seq![
            Json::Text(hash_text(hash)),
            logger_config_json(
                GethLoggerConfig {
                    enable_memory: check_mem_strict,
                    ..default_logger_config()
                },
            ),
        ],
    }
}

pub fn trace_tx_request(hash: H256, check_mem_strict: bool) -> (r: RpcRequest)
    ensures
        r@ == trace_tx_req(hash, check_mem_strict),
{
    let mut params: Vec<JsonValue> = Vec::new();
    params.push(JsonValue::Text(encode_hash(hash)));
    let cfg = GethLoggerConfig {
        enable_memory: check_mem_strict,
        disable_stack: false,
        disable_storage: false,
        enable_return_data: true,
    };
    params.push(logger_config_value(cfg));
    let r = RpcRequest { method: String::from_str("debug_traceTransaction"), params };
    proof {
        assert(r@.params =~= trace_tx_req(hash, check_mem_strict).params);
        assert(r@ =~= trace_tx_req(hash, check_mem_strict));
    }
    r
}

/// `debug_traceTransaction` under the prestate tracer: the hash, then
/// only the tracer-name directive.
pub open spec fn trace_tx_prestate_req(hash: H256) -> RpcRequestModel {
    RpcRequestModel {
        method: "debug_traceTransaction"@,
        params: seq![Json::Text(hash_text(hash)), prestate_config_json()],
    }
}

pub fn trace_tx_prestate_request(hash: H256) -> (r: RpcRequest)
    ensures
        r@ == trace_tx_prestate_req(hash),
{
    let mut params: Vec<JsonValue> = Vec::new();
    params.push(JsonValue::Text(encode_hash(hash)));
    params.push(prestate_config_value());
    let r = RpcRequest { method: String::from_str("debug_traceTransaction"), params };
    proof {
        assert(r@.params =~= trace_tx_prestate_req(hash).params);
        assert(r@ =~= trace_tx_prestate_req(hash));
    }
    r
}

/// `debug_traceBlockByHash` under the prestate tracer.
pub open spec fn trace_block_prestate_req(hash: H256) -> RpcRequestModel {
    RpcRequestModel {
        method: "debug_traceBlockByHash"@,
        params: seq![Json::Text(hash_text(hash)), prestate_config_json()],
    }
}

pub fn trace_block_prestate_request(hash: H256) -> (r: RpcRequest)
    ensures
        r@ == trace_block_prestate_req(hash),
{
    let mut params: Vec<JsonValue> = Vec::new();
    params.push(JsonValue::Text(encode_hash(hash)));
    params.push(prestate_config_value());
    let r = RpcRequest { method: String::from_str("debug_traceBlockByHash"), params };
    proof {
        assert(r@.params =~= trace_block_prestate_req(hash).params);
        assert(r@ =~= trace_block_prestate_req(hash));
    }
    r
}

/// `eth_getCode`: the contract address, then the block reference.
pub open spec fn get_code_req(contract_address: Address, block_num: BlockNumber) -> RpcRequestModel {
    RpcRequestModel {
        method: "eth_getCode"@,
        params: seq![
            Json::Text(address_text(contract_address)),
            Json::Text(block_number_text(block_num)),
        ],
    }
}

pub fn get_code_request(contract_address: Address, block_num: BlockNumber) -> (r: RpcRequest)
    ensures
        r@ == get_code_req(contract_address, block_num),
{
    let mut params: Vec<JsonValue> = Vec::new();
    params.push(JsonValue::Text(encode_address(contract_address)));
    params.push(JsonValue::Text(encode_block_number(block_num)));
    let r = RpcRequest { method: String::from_str("eth_getCode"), params };
    proof {
        assert(r@.params =~= get_code_req(contract_address, block_num).params);
        assert(r@ =~= get_code_req(contract_address, block_num));
    }
    r
}

/// `eth_getProof`: the account, the padded storage keys in order, the
/// block reference.
pub open spec fn get_proof_req(account: Address, keys: Seq<Word>, block_num: BlockNumber) -> RpcRequestModel {
    RpcRequestModel {
        method: "eth_getProof"@,
        params: seq![
            Json::Text(address_text(account)),
            proof_keys_json(keys),
            Json::Text(block_number_text(block_num)),
        ],
    }
}

pub fn get_proof_request(account: Address, keys: &Vec<Word>, block_num: BlockNumber) -> (r:
    RpcRequest)
    ensures
        r@ == get_proof_req(account, keys@, block_num),
{
    let mut params: Vec<JsonValue> = Vec::new();
    params.push(JsonValue::Text(encode_address(account)));
    params.push(proof_keys_value(keys));
    params.push(JsonValue::Text(encode_block_number(block_num)));
    let r = RpcRequest { method: String::from_str("eth_getProof"), params };
    proof {
        assert(r@.params =~= get_proof_req(account, keys@, block_num).params);
        assert(r@ =~= get_proof_req(account, keys@, block_num));
    }
    r
}

/// `miner_stop`, no parameters.
pub open spec fn miner_stop_req() -> RpcRequestModel {
    RpcRequestModel { method: "miner_stop"@, params: Seq::<Json>::empty() }
}

pub fn miner_stop_request() -> (r: RpcRequest)
    ensures
        r@ == miner_stop_req(),
{
    let r = RpcRequest { method: String::from_str("miner_stop"), params: Vec::new() };
    proof {
        assert(r@.params =~= miner_stop_req().params);
        assert(r@ =~= miner_stop_req());
    }
    r
}

/// `miner_start` with the single number `1`.
pub open spec fn miner_start_req() -> RpcRequestModel {
    RpcRequestModel { method: "miner_start"@, params: seq![Json::UInt(1)] }
}

pub fn miner_start_request() -> (r: RpcRequest)
    ensures
        r@ == miner_start_req(),
{
    let mut params: Vec<JsonValue> = Vec::new();
    params.push(JsonValue::UInt(1));
    let r = RpcRequest { method: String::from_str("miner_start"), params };
    proof {
        assert(r@.params =~= miner_start_req().params);
        assert(r@ =~= miner_start_req());
    }
    r
}

/// `anvil_mine` with one block and a fixed twelve-second interval.
pub open spec fn mine_req() -> RpcRequestModel {
    RpcRequestModel { method: "anvil_mine"@, params: seq![Json::UInt(1), Json::UInt(12)] }
}

pub fn mine_request() -> (r: RpcRequest)
    ensures
        r@ == mine_req(),
{
    let mut params: Vec<JsonValue> = Vec::new();
    params.push(JsonValue::UInt(1));
    params.push(JsonValue::UInt(12));
    let r = RpcRequest { method: String::from_str("anvil_mine"), params };
    proof {
        assert(r@.params =~= mine_req().params);
        assert(r@ =~= mine_req());
    }
    r
}

/// `anvil_reset`: one object carrying the upstream URL and the fork
/// block, keys in their wire order.
pub open spec fn reset_req(json_rpc_url: Seq<char>, block_number: u64) -> RpcRequestModel {
    RpcRequestModel {
        method: "anvil_reset"@,
        params: seq![
            Json::Object(
                seq![
                    JsonField {
                        name: "block_number"@,
                        value: Json::Text(u64_quantity_text(block_number)),
                    },
                    JsonField { name: "json_rpc_url"@, value: Json::Text(json_rpc_url) },
                ],
            ),
        ],
    }
}

pub fn reset_request(json_rpc_url: &str, block_number: u64) -> (r: RpcRequest)
    ensures
        r@ == reset_req(json_rpc_url@, block_number),
{
    let mut fields: Vec<(String, JsonValue)> = Vec::new();
    fields.push((String::from_str("block_number"), JsonValue::Text(encode_quantity_u64(
        block_number,
    ))));
    fields.push((String::from_str("json_rpc_url"), JsonValue::Text(String::from_str(
        json_rpc_url,
    ))));
    let ghost fv = fields@;
    let forking = JsonValue::Object(fields);
    proof {
        reveal_with_fuel(json_of, 2);
        let lhs = json_of(forking)->Object_0;
        let rhs = reset_req(json_rpc_url@, block_number).params[0]->Object_0;
        assert(fv.len() == 2);
        assert(lhs[0] =~~= rhs[0]);
        assert(lhs[1] =~~= rhs[1]);
        assert(lhs =~= rhs);
        assert(json_of(forking) == reset_req(json_rpc_url@, block_number).params[0]);
    }
    let mut params: Vec<JsonValue> = Vec::new();
    params.push(forking);
    let r = RpcRequest { method: String::from_str("anvil_reset"), params };
    proof {
        assert(r@.params =~= reset_req(json_rpc_url@, block_number).params);
        assert(r@ =~= reset_req(json_rpc_url@, block_number));
    }
    r
}

/// `anvil_setNonce`: the address, then the nonce as a quantity.
pub open spec fn set_nonce_req(address: Address, nonce: Word) -> RpcRequestModel {
    RpcRequestModel {
        method: "anvil_setNonce"@,
        params: seq![Json::Text(address_text(address)), Json::Text(word_quantity_text(nonce))],
    }
}

pub fn set_nonce_request(address: Address, nonce: Word) -> (r: RpcRequest)
    ensures
        r@ == set_nonce_req(address, nonce),
{
    let mut params: Vec<JsonValue> = Vec::new();
    params.push(JsonValue::Text(encode_address(address)));
    params.push(JsonValue::Text(encode_word_quantity(nonce)));
    let r = RpcRequest { method: String::from_str("anvil_setNonce"), params };
    proof {
        assert(r@.params =~= set_nonce_req(address, nonce).params);
        assert(r@ =~= set_nonce_req(address, nonce));
    }
    r
}

/// `eth_sendRawTransaction`: the raw transaction bytes as one hex
/// string.
pub open spec fn send_raw_transaction_req(raw_tx: Seq<u8>) -> RpcRequestModel {
    RpcRequestModel {
        method: "eth_sendRawTransaction"@,
        params: seq![Json::Text(bytes_text(raw_tx))],
    }
}

pub fn send_raw_transaction_request(raw_tx: &Vec<u8>) -> (r: RpcRequest)
    ensures
        r@ == send_raw_transaction_req(raw_tx@),
{
    let mut params: Vec<JsonValue> = Vec::new();
    params.push(JsonValue::Text(encode_hex_prefixed(raw_tx.as_slice())));
    let r = RpcRequest { method: String::from_str("eth_sendRawTransaction"), params };
    proof {
        assert(r@.params =~= send_raw_transaction_req(raw_tx@).params);
        assert(r@ =~= send_raw_transaction_req(raw_tx@));
    }
    r
}

/// `anvil_setNextBlockBaseFeePerGas`: the fee as a quantity.
pub open spec fn set_next_block_base_fee_per_gas_req(basefee: Word) -> RpcRequestModel {
    RpcRequestModel {
        method: "anvil_setNextBlockBaseFeePerGas"@,
        params: seq![Json::Text(word_quantity_text(basefee))],
    }
}

pub fn set_next_block_base_fee_per_gas_request(basefee: Word) -> (r: RpcRequest)
    ensures
        r@ == set_next_block_base_fee_per_gas_req(basefee),
{
    let mut params: Vec<JsonValue> = Vec::new();
    params.push(JsonValue::Text(encode_word_quantity(basefee)));
    let r = RpcRequest { method: String::from_str("anvil_setNextBlockBaseFeePerGas"), params };
    proof {
        assert(r@.params =~= set_next_block_base_fee_per_gas_req(basefee).params);
        assert(r@ =~= set_next_block_base_fee_per_gas_req(basefee));
    }
    r
}

} // verus!
