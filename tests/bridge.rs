use floresta_cln::handlers::{
    after_block_hash, block_call, block_hash_call, block_reply, chain_info_call, chain_info_reply,
    estimate_fees, send_raw_transaction_call, send_raw_transaction_reply, utxo_call, utxo_reply,
    BlockStep, BlockchainInfo, BridgeError, HostMethod, HostParams, TxOut, UtxoLookup,
    FEERATE_FLOOR,
};
use floresta_cln::rpc::{BackendCall, BackendClient, BackendMethod, Endpoint, Envelope, IdCounter};
use floresta_cln::text::{decimal_text, push_joined, quote};

fn envelope<R>(error: Option<&str>, result: Option<R>) -> Envelope<R> {
    Envelope {
        jsonrpc: "2.0".to_string(),
        error: error.map(|e| e.to_string()),
        result,
        id: 0,
    }
}

fn params(tx: Option<&str>, txid: Option<&str>, vout: Option<&str>) -> HostParams {
    HostParams {
        tx: tx.map(|s| s.to_string()),
        txid: txid.map(|s| s.to_string()),
        vout: vout.map(|s| s.to_string()),
    }
}

#[test]
fn decimal_text_writes_digits() {
    assert_eq!(decimal_text(0), "0");
    assert_eq!(decimal_text(7), "7");
    assert_eq!(decimal_text(10), "10");
    assert_eq!(decimal_text(840_000), "840000");
    assert_eq!(decimal_text(u64::MAX), "18446744073709551615");
}

#[test]
fn quote_wraps_in_double_quotes() {
    assert_eq!(quote("abc"), "\"abc\"");
    assert_eq!(quote(""), "\"\"");
}

#[test]
fn joined_parameters_are_comma_separated() {
    let mut s = String::from("[");
    push_joined(&mut s, &vec!["\"aa\"".to_string(), "1".to_string(), "true".to_string()]);
    assert_eq!(s, "[\"aa\", 1, true");
    let mut empty = String::new();
    push_joined(&mut empty, &vec![]);
    assert_eq!(empty, "");
}

#[test]
fn ids_count_up_and_wrap() {
    let mut ids = IdCounter::new();
    assert_eq!(ids.next_id(), 0);
    assert_eq!(ids.next_id(), 1);
    assert_eq!(ids.next_id(), 2);
    let mut last = IdCounter { next: u64::MAX };
    assert_eq!(last.next_id(), u64::MAX);
    assert_eq!(last.next_id(), 0);
}

#[test]
fn endpoint_url_of_local_backend() {
    assert_eq!(Endpoint::local().url(), "http://127.0.0.1:8080");
    let e = Endpoint { host: "node.lan".to_string(), port: 38332 };
    assert_eq!(e.url(), "http://node.lan:38332");
}

#[test]
fn frame_builds_request_and_advances_ids() {
    let mut client = BackendClient::new(Endpoint::local());
    let call = utxo_call(&params(None, Some("\"ab12\""), Some("3"))).unwrap();
    let first = client.frame(&call);
    assert_eq!(first.id, 0);
    assert_eq!(first.url, "http://127.0.0.1:8080");
    assert_eq!(
        first.body,
        "{\"jsonrpc\":\"2.0\", \"id\":0, \"method\":\"gettxout\", \"params\": [\"ab12\", 3]}"
    );
    let second = client.frame(&chain_info_call());
    assert_eq!(second.id, 1);
    assert_eq!(
        second.body,
        "{\"jsonrpc\":\"2.0\", \"id\":1, \"method\":\"getblockchaininfo\", \"params\": []}"
    );
    assert_ne!(first.id, second.id);
}

#[test]
fn frame_block_request() {
    let mut client = BackendClient::new(Endpoint::local());
    client.ids.next = 41;
    let r = client.frame(&block_call(&"00ff".to_string()));
    assert_eq!(r.id, 41);
    assert_eq!(
        r.body,
        "{\"jsonrpc\":\"2.0\", \"id\":41, \"method\":\"getblock\", \"params\": [\"00ff\", 0]}"
    );
    assert_eq!(client.ids.next, 42);
}

#[test]
fn method_names() {
    assert_eq!(HostMethod::GetChainInfo.name(), "getchaininfo");
    assert_eq!(HostMethod::SendRawTransaction.name(), "sendrawtransaction");
    assert_eq!(HostMethod::GetUtxOut.name(), "getutxout");
    assert_eq!(HostMethod::EstimateFees.name(), "estimatefees");
    assert_eq!(HostMethod::GetRawBlockByHeight.name(), "getrawblockbyheight");
    assert_eq!(BackendMethod::GetBlockchainInfo.name(), "getblockchaininfo");
    assert_eq!(BackendMethod::SendRawTransaction.name(), "sendrawtransaction");
    assert_eq!(BackendMethod::GetTxOut.name(), "gettxout");
    assert_eq!(BackendMethod::GetBlockHash.name(), "getblockhash");
    assert_eq!(BackendMethod::GetBlock.name(), "getblock");
}

#[test]
fn chain_info_maps_fields() {
    let info = BlockchainInfo { chain: "signet".to_string(), height: 200, validated: 150, ibd: true };
    let r = chain_info_reply(envelope(None, Some(info))).unwrap();
    assert_eq!(r.chain, "signet");
    assert_eq!(r.headercount, 200);
    assert_eq!(r.blockcount, 150);
    assert!(r.ibd);
}

#[test]
fn chain_info_without_result_fails() {
    let r = chain_info_reply(envelope::<BlockchainInfo>(Some("{\"code\":-1}"), None));
    assert_eq!(r.err(), Some(BridgeError::MalformedResponse));
}

#[test]
fn send_without_tx_is_bad_request() {
    let r = send_raw_transaction_call(&params(None, Some("\"ab\""), Some("0")));
    assert_eq!(r.err(), Some(BridgeError::BadRequest));
}

#[test]
fn send_passes_tx_text() {
    let call = send_raw_transaction_call(&params(Some("\"0200aa\""), None, None)).unwrap();
    assert_eq!(call.method, BackendMethod::SendRawTransaction);
    assert_eq!(call.params, vec!["\"0200aa\"".to_string()]);
}

#[test]
fn send_rejected_reports_error() {
    let r = send_raw_transaction_reply(envelope(Some("{\"message\":\"bad tx\"}"), None));
    assert!(!r.success);
    assert_eq!(r.errmsg.as_deref(), Some("{\"message\":\"bad tx\"}"));
}

#[test]
fn send_accepted_reports_success() {
    let r = send_raw_transaction_reply(envelope(None, Some("abcd".to_string())));
    assert!(r.success);
    assert_eq!(r.errmsg, None);
}

#[test]
fn utxo_missing_txid_or_vout_is_bad_request() {
    assert_eq!(utxo_call(&params(None, None, Some("1"))).err(), Some(BridgeError::BadRequest));
    assert_eq!(utxo_call(&params(None, Some("\"ab\""), None)).err(), Some(BridgeError::BadRequest));
    assert_eq!(utxo_call(&params(Some("\"ff\""), None, None)).err(), Some(BridgeError::BadRequest));
}

#[test]
fn utxo_call_passes_both_parameters() {
    let call = utxo_call(&params(None, Some("\"ab\""), Some("1"))).unwrap();
    assert_eq!(call.method, BackendMethod::GetTxOut);
    assert_eq!(call.params, vec!["\"ab\"".to_string(), "1".to_string()]);
}

#[test]
fn utxo_unknown_output_is_null() {
    let spent = utxo_reply(envelope(None, Some(UtxoLookup { txout: None })));
    assert_eq!(spent.amount, None);
    assert_eq!(spent.script, None);
    let missing = utxo_reply(envelope::<UtxoLookup>(None, None));
    assert_eq!(missing.amount, None);
    assert_eq!(missing.script, None);
}

#[test]
fn utxo_known_output_is_reported() {
    let out = TxOut { value: 5_000, script_pubkey: "0014abcd".to_string() };
    let r = utxo_reply(envelope(None, Some(UtxoLookup { txout: Some(out) })));
    assert_eq!(r.amount, Some(5_000));
    assert_eq!(r.script.as_deref(), Some("0014abcd"));
}

#[test]
fn estimate_fees_is_fixed_table() {
    let f = estimate_fees();
    assert_eq!(f.feerate_floor, 1000);
    assert_eq!(FEERATE_FLOOR, 1000);
    let blocks: Vec<u32> = f.feerates.iter().map(|r| r.blocks).collect();
    assert_eq!(blocks, vec![2, 6, 12, 100]);
    assert!(f.feerates.iter().all(|r| r.feerate == 1000));
}

#[test]
fn block_hash_call_writes_height() {
    let call = block_hash_call(123_456);
    assert_eq!(call.method, BackendMethod::GetBlockHash);
    assert_eq!(call.params, vec!["123456".to_string()]);
}

#[test]
fn no_hash_means_no_block() {
    match after_block_hash(envelope::<String>(None, None)) {
        BlockStep::Done(r) => {
            assert_eq!(r.blockhash, None);
            assert_eq!(r.block, None);
        }
        BlockStep::Fetch { .. } => panic!("expected no block"),
    }
}

#[test]
fn hash_leads_to_block_fetch() {
    match after_block_hash(envelope(None, Some("beef".to_string()))) {
        BlockStep::Fetch { hash, call } => {
            assert_eq!(hash, "beef");
            assert_eq!(call.method, BackendMethod::GetBlock);
            assert_eq!(call.params, vec!["\"beef\"".to_string(), "0".to_string()]);
        }
        BlockStep::Done(_) => panic!("expected a block fetch"),
    }
}

#[test]
fn missing_block_means_no_block() {
    let r = block_reply("beef".to_string(), envelope::<Vec<u8>>(None, None));
    assert_eq!(r.blockhash, None);
    assert_eq!(r.block, None);
}

#[test]
fn block_is_hex_encoded_and_round_trips() {
    let bytes = vec![0x00, 0x01, 0xab, 0xff, 0x10];
    let r = block_reply("beef".to_string(), envelope(None, Some(bytes.clone())));
    assert_eq!(r.blockhash.as_deref(), Some("beef"));
    let text = r.block.unwrap();
    assert_eq!(text, "0001abff10");
    assert_eq!(hex::decode(&text).unwrap(), bytes);
}

#[test]
fn empty_block_is_empty_text() {
    let r = block_reply("h".to_string(), envelope(None, Some(Vec::new())));
    assert_eq!(r.block.as_deref(), Some(""));
}

#[test]
fn backend_call_is_plain_data() {
    let call = BackendCall { method: BackendMethod::GetBlock, params: vec![] };
    let mut client = BackendClient::new(Endpoint { host: "h".to_string(), port: 1 });
    let r = client.frame(&call);
    assert_eq!(r.url, "http://h:1");
    assert_eq!(r.body, "{\"jsonrpc\":\"2.0\", \"id\":0, \"method\":\"getblock\", \"params\": []}");
}
