//! Client operations driven through the scripted transport.

use geth_rpc::client::GethClient;
use geth_rpc::json::JsonValue;
use geth_rpc::transport::ScriptedTransport;
use geth_rpc::types::{Address, BlockNumber, Error, H256, Word};

fn text(s: &str) -> JsonValue {
    JsonValue::Text(s.to_string())
}

fn obj(fields: Vec<(&str, JsonValue)>) -> JsonValue {
    JsonValue::Object(fields.into_iter().map(|(k, v)| (k.to_string(), v)).collect())
}

fn client_with(script: Vec<Option<JsonValue>>) -> GethClient<ScriptedTransport> {
    GethClient::new(ScriptedTransport::new(script))
}

#[test]
fn chain_id_decodes_hex_quantity() {
    let mut cli = client_with(vec![Some(text("0x1"))]);
    assert_eq!(cli.get_chain_id(), Ok(1));
    let served = cli.0.served_requests();
    assert_eq!(served.len(), 1);
    assert_eq!(served[0].method, "eth_chainId");
    assert!(served[0].params.is_empty());
}

#[test]
fn chain_id_larger_quantity_and_uppercase() {
    let mut cli = client_with(vec![Some(text("0x1b4")), Some(text("0xAB"))]);
    assert_eq!(cli.get_chain_id(), Ok(0x1b4));
    assert_eq!(cli.get_chain_id(), Ok(0xab));
}

#[test]
fn chain_id_malformed_quantities_fail() {
    let cases = vec![
        text("0x"),
        text("1"),
        text("0xg1"),
        text("0x11223344556677889"),
        JsonValue::UInt(1),
        JsonValue::Null,
    ];
    for bad in cases {
        let mut cli = client_with(vec![Some(bad)]);
        assert!(matches!(cli.get_chain_id(), Err(Error::JSONRpcError(_))));
    }
}

#[test]
fn coinbase_decodes_address() {
    let mut cli = client_with(vec![Some(text("0x00000000000000000000000000000000000000aa"))]);
    let mut expected = [0u8; 20];
    expected[19] = 0xaa;
    assert_eq!(cli.get_coinbase(), Ok(Address(expected)));
    assert_eq!(cli.0.served_requests()[0].method, "eth_coinbase");
}

#[test]
fn get_proof_serializes_padded_keys_in_order() {
    // Proof request for address A with keys [0, 1] at "latest": the
    // params must be the address, the padded key strings in order,
    // then the tag.
    let mut cli = client_with(vec![Some(obj(vec![("accountProof", JsonValue::Array(vec![]))]))]);
    let account = Address([0x11u8; 20]);
    let keys = vec![Word::from_u64(0), Word::from_u64(1)];
    let r = cli.get_proof(account, keys, BlockNumber::Latest);
    assert!(r.is_ok());

    let served = cli.0.served_requests();
    assert_eq!(served.len(), 1);
    assert_eq!(served[0].method, "eth_getProof");
    assert_eq!(served[0].params.len(), 3);

    let addr_hex = format!("0x{}", "11".repeat(20));
    assert_eq!(served[0].params[0], text(&addr_hex));

    let key0 = format!("0x{}", "0".repeat(64));
    let key1 = format!("0x{}1", "0".repeat(63));
    assert_eq!(
        served[0].params[1],
        JsonValue::Array(vec![text(&key0), text(&key1)])
    );

    assert_eq!(served[0].params[2], text("latest"));
}

#[test]
fn block_fetches_always_ask_full_transactions() {
    let mut cli = client_with(vec![
        Some(obj(vec![("number", text("0x1"))])),
        Some(obj(vec![("number", text("0x2"))])),
    ]);
    cli.get_block_by_hash(H256([0x22u8; 32])).unwrap();
    cli.get_block_by_number(BlockNumber::Number(2)).unwrap();

    let served = cli.0.served_requests();
    assert_eq!(served[0].method, "eth_getBlockByHash");
    assert_eq!(served[0].params[0], text(&format!("0x{}", "22".repeat(32))));
    assert_eq!(served[0].params[1], JsonValue::Bool(true));
    assert_eq!(served[1].method, "eth_getBlockByNumber");
    assert_eq!(served[1].params[0], text("0x2"));
    assert_eq!(served[1].params[1], JsonValue::Bool(true));
}

#[test]
fn default_trace_config_fields_and_order() {
    let mut cli = client_with(vec![Some(JsonValue::Array(vec![]))]);
    cli.trace_block_by_hash(H256([0u8; 32])).unwrap();
    let served = cli.0.served_requests();
    assert_eq!(served[0].method, "debug_traceBlockByHash");
    let expected = obj(vec![
        ("EnableMemory", JsonValue::Bool(false)),
        ("DisableStack", JsonValue::Bool(false)),
        ("DisableStorage", JsonValue::Bool(false)),
        ("EnableReturnData", JsonValue::Bool(true)),
    ]);
    assert_eq!(served[0].params[1], expected);
}

#[test]
fn trace_tx_memory_follows_strictness_flag() {
    let mut cli = client_with(vec![
        Some(obj(vec![("structLogs", JsonValue::Array(vec![]))])),
        Some(obj(vec![("structLogs", JsonValue::Array(vec![]))])),
    ]);
    cli.trace_tx_by_hash(H256([1u8; 32]), true).unwrap();
    cli.trace_tx_by_hash(H256([1u8; 32]), false).unwrap();
    let served = cli.0.served_requests();
    for (i, mem) in [(0usize, true), (1usize, false)] {
        assert_eq!(served[i].method, "debug_traceTransaction");
        let expected = obj(vec![
            ("EnableMemory", JsonValue::Bool(mem)),
            ("DisableStack", JsonValue::Bool(false)),
            ("DisableStorage", JsonValue::Bool(false)),
            ("EnableReturnData", JsonValue::Bool(true)),
        ]);
        assert_eq!(served[i].params[1], expected);
    }
}

#[test]
fn prestate_config_is_only_the_tracer_name() {
    let mut cli = client_with(vec![
        Some(obj(vec![])),
        Some(JsonValue::Array(vec![])),
    ]);
    cli.trace_tx_prestate_by_hash(H256([3u8; 32])).unwrap();
    cli.trace_block_prestate_by_hash(H256([3u8; 32])).unwrap();
    let served = cli.0.served_requests();
    let expected = obj(vec![("tracer", text("prestateTracer"))]);
    assert_eq!(served[0].method, "debug_traceTransaction");
    assert_eq!(served[0].params[1], expected);
    assert_eq!(served[1].method, "debug_traceBlockByHash");
    assert_eq!(served[1].params[1], expected);
}

#[test]
fn trace_block_unwraps_results_in_order() {
    let resp = JsonValue::Array(vec![
        obj(vec![("result", text("first"))]),
        obj(vec![("result", text("second"))]),
        obj(vec![("result", text("third"))]),
    ]);
    let mut cli = client_with(vec![Some(resp)]);
    let traces = cli.trace_block_by_hash(H256([9u8; 32])).unwrap();
    assert_eq!(traces, vec![text("first"), text("second"), text("third")]);
}

#[test]
fn trace_block_missing_result_field_fails() {
    let resp = JsonValue::Array(vec![
        obj(vec![("result", text("first"))]),
        obj(vec![("error", text("boom"))]),
    ]);
    let mut cli = client_with(vec![Some(resp)]);
    assert!(matches!(
        cli.trace_block_by_hash(H256([9u8; 32])),
        Err(Error::JSONRpcError(_))
    ));
}

#[test]
fn prestate_maps_keep_response_order() {
    let a1 = format!("0x{}", "aa".repeat(20));
    let a2 = format!("0x{}", "bb".repeat(20));
    let resp = obj(vec![
        (a1.as_str(), obj(vec![("balance", text("0x1"))])),
        (a2.as_str(), obj(vec![("balance", text("0x2"))])),
    ]);
    let mut cli = client_with(vec![Some(resp)]);
    let entries = cli.trace_tx_prestate_by_hash(H256([4u8; 32])).unwrap();
    assert_eq!(entries.len(), 2);
    assert_eq!(entries[0].0, Address([0xaau8; 20]));
    assert_eq!(entries[0].1, obj(vec![("balance", text("0x1"))]));
    assert_eq!(entries[1].0, Address([0xbbu8; 20]));
    assert_eq!(entries[1].1, obj(vec![("balance", text("0x2"))]));
}

#[test]
fn block_prestate_unwraps_then_maps() {
    let a1 = format!("0x{}", "cc".repeat(20));
    let resp = JsonValue::Array(vec![obj(vec![(
        "result",
        obj(vec![(a1.as_str(), JsonValue::Null)]),
    )])]);
    let mut cli = client_with(vec![Some(resp)]);
    let per_tx = cli.trace_block_prestate_by_hash(H256([5u8; 32])).unwrap();
    assert_eq!(per_tx.len(), 1);
    assert_eq!(per_tx[0].len(), 1);
    assert_eq!(per_tx[0][0].0, Address([0xccu8; 20]));
    assert_eq!(per_tx[0][0].1, JsonValue::Null);
}

#[test]
fn get_code_decodes_hex_bytes() {
    let mut cli = client_with(vec![Some(text("0x6080"))]);
    let code = cli
        .get_code(Address([0u8; 20]), BlockNumber::Latest)
        .unwrap();
    assert_eq!(code, vec![0x60u8, 0x80u8]);
    let served = cli.0.served_requests();
    assert_eq!(served[0].method, "eth_getCode");
    assert_eq!(served[0].params[1], text("latest"));
}

#[test]
fn send_raw_transaction_returns_hash() {
    let mut cli = client_with(vec![Some(text(&format!("0x{}", "ef".repeat(32))))]);
    let h = cli.send_raw_transaction(vec![0x01, 0x02]).unwrap();
    assert_eq!(h, H256([0xefu8; 32]));
    let served = cli.0.served_requests();
    assert_eq!(served[0].method, "eth_sendRawTransaction");
    assert_eq!(served[0].params[0], text("0x0102"));
}

#[test]
fn dev_node_calls_use_fixed_params() {
    let mut cli = client_with(vec![
        Some(JsonValue::Null),
        Some(JsonValue::Null),
        Some(JsonValue::Null),
        Some(JsonValue::Null),
        Some(JsonValue::Null),
        Some(JsonValue::Null),
    ]);
    assert_eq!(cli.miner_stop(), Ok(()));
    assert_eq!(cli.miner_start(), Ok(()));
    assert_eq!(cli.mine(), Ok(()));
    assert_eq!(cli.reset("http://upstream.example", 0x10), Ok(()));
    assert_eq!(cli.set_nonce(Address([1u8; 20]), Word::from_u64(7)), Ok(()));
    assert_eq!(
        cli.set_next_block_base_fee_per_gas(Word::from_u64(1000)),
        Ok(())
    );

    let served = cli.0.served_requests();
    assert_eq!(served[0].method, "miner_stop");
    assert!(served[0].params.is_empty());
    assert_eq!(served[1].method, "miner_start");
    assert_eq!(served[1].params, vec![JsonValue::UInt(1)]);
    assert_eq!(served[2].method, "anvil_mine");
    assert_eq!(served[2].params, vec![JsonValue::UInt(1), JsonValue::UInt(12)]);
    assert_eq!(served[3].method, "anvil_reset");
    assert_eq!(
        served[3].params[0],
        obj(vec![
            ("block_number", text("0x10")),
            ("json_rpc_url", text("http://upstream.example")),
        ])
    );
    assert_eq!(served[4].method, "anvil_setNonce");
    assert_eq!(served[4].params[1], text("0x7"));
    assert_eq!(served[5].method, "anvil_setNextBlockBaseFeePerGas");
    assert_eq!(served[5].params[0], text("0x3e8"));
}

#[test]
fn transport_failure_surfaces_as_the_one_error_kind() {
    let mut cli = client_with(vec![None]);
    assert!(matches!(
        cli.get_chain_id(),
        Err(Error::JSONRpcError(_))
    ));
}

#[test]
fn exhausted_transport_fails_every_operation() {
    let mut cli = client_with(vec![]);
    assert!(matches!(cli.miner_stop(), Err(Error::JSONRpcError(_))));
    assert!(matches!(
        cli.get_block_by_hash(H256([0u8; 32])),
        Err(Error::JSONRpcError(_))
    ));
}

#[test]
fn non_null_reply_to_fire_and_forget_is_an_error() {
    let mut cli = client_with(vec![Some(JsonValue::Bool(true))]);
    assert!(matches!(cli.mine(), Err(Error::JSONRpcError(_))));
}

#[test]
fn null_block_response_is_an_error() {
    let mut cli = client_with(vec![Some(JsonValue::Null)]);
    assert!(matches!(
        cli.get_block_by_hash(H256([0u8; 32])),
        Err(Error::JSONRpcError(_))
    ));
}
