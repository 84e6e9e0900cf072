//! Wire encodings and request builders, checked on exact values.

use geth_rpc::hex::{encode_quantity_u64, parse_hex_bytes_str, parse_quantity_str};
use geth_rpc::request::{
    chain_id_request, coinbase_request, encode_block_number, encode_word_key,
    encode_word_quantity, get_proof_request, mine_request, miner_start_request,
    miner_stop_request, reset_request, send_raw_transaction_request, set_nonce_request,
    trace_tx_prestate_request,
};
use geth_rpc::types::{Address, BlockNumber, Word};

#[test]
fn storage_key_one_is_left_zero_padded() {
    let s = encode_word_key(Word::from_u64(1));
    assert_eq!(s.len(), 66);
    assert_eq!(s, format!("0x{}1", "0".repeat(63)));
}

#[test]
fn storage_key_zero_is_all_zero_digits() {
    let s = encode_word_key(Word::from_u64(0));
    assert_eq!(s, format!("0x{}", "0".repeat(64)));
}

#[test]
fn storage_key_is_lowercase_whatever_the_magnitude() {
    let mut bytes = [0u8; 32];
    bytes[0] = 0xde;
    bytes[1] = 0xad;
    bytes[31] = 0xbe;
    let s = encode_word_key(Word(bytes));
    assert_eq!(s, format!("0xdead{}be", "0".repeat(58)));
}

#[test]
fn quantity_encoding_is_minimal() {
    assert_eq!(encode_quantity_u64(0), "0x0");
    assert_eq!(encode_quantity_u64(1), "0x1");
    assert_eq!(encode_quantity_u64(0x1b4), "0x1b4");
    assert_eq!(encode_quantity_u64(u64::MAX), "0xffffffffffffffff");
    assert_eq!(encode_word_quantity(Word::from_u64(0)), "0x0");
    assert_eq!(encode_word_quantity(Word::from_u64(0x0f)), "0xf");
}

#[test]
fn block_number_tags_and_numbers() {
    assert_eq!(encode_block_number(BlockNumber::Latest), "latest");
    assert_eq!(encode_block_number(BlockNumber::Finalized), "finalized");
    assert_eq!(encode_block_number(BlockNumber::Safe), "safe");
    assert_eq!(encode_block_number(BlockNumber::Earliest), "earliest");
    assert_eq!(encode_block_number(BlockNumber::Pending), "pending");
    assert_eq!(encode_block_number(BlockNumber::Number(255)), "0xff");
}

#[test]
fn quantity_parsing_exact_values() {
    assert_eq!(parse_quantity_str("0x1"), Some(1));
    assert_eq!(parse_quantity_str("0x0"), Some(0));
    assert_eq!(parse_quantity_str("0xffffffffffffffff"), Some(u64::MAX));
    assert_eq!(parse_quantity_str("0xDeadBeef"), Some(0xdeadbeef));
    assert_eq!(parse_quantity_str("0x"), None);
    assert_eq!(parse_quantity_str("10"), None);
    assert_eq!(parse_quantity_str("0x10000000000000000"), None);
}

#[test]
fn hex_byte_parsing_exact_values() {
    assert_eq!(parse_hex_bytes_str("0x"), Some(vec![]));
    assert_eq!(parse_hex_bytes_str("0x6080"), Some(vec![0x60, 0x80]));
    assert_eq!(parse_hex_bytes_str("0x608"), None);
    assert_eq!(parse_hex_bytes_str("6080"), None);
    assert_eq!(parse_hex_bytes_str("0x6g"), None);
}

#[test]
fn builders_name_the_wire_methods() {
    assert_eq!(chain_id_request().method, "eth_chainId");
    assert_eq!(coinbase_request().method, "eth_coinbase");
    assert_eq!(miner_stop_request().method, "miner_stop");
    assert_eq!(miner_start_request().method, "miner_start");
    assert_eq!(mine_request().method, "anvil_mine");
    assert_eq!(reset_request("u", 1).method, "anvil_reset");
    assert_eq!(
        set_nonce_request(Address([0u8; 20]), Word::from_u64(1)).method,
        "anvil_setNonce"
    );
    assert_eq!(
        send_raw_transaction_request(&vec![0u8]).method,
        "eth_sendRawTransaction"
    );
    assert_eq!(
        trace_tx_prestate_request(geth_rpc::types::H256([0u8; 32])).method,
        "debug_traceTransaction"
    );
    let req = get_proof_request(Address([0u8; 20]), &vec![], BlockNumber::Pending);
    assert_eq!(req.method, "eth_getProof");
    assert_eq!(req.params.len(), 3);
}
