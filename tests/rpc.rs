use near_api::account::{find_access_key, record_access_key, AccessKeyCache, FindAccessKey};
use near_api::blocks::{BlockHeaderView, BlockView, RpcBlockError, RpcBlockRequest};
use near_api::changes::{RpcStateChangesError, RpcStateChangesInBlockByTypeRequest, RpcStateChangesInBlockRequest, RpcStateChangesInBlockResponse};
use near_api::config::{RpcProtocolConfigError, RpcProtocolConfigRequest};
use near_api::errors::{RpcError, RpcErrorKind, PARSE_ERROR_CODE, SERVER_ERROR_CODE, TRANSPORT_ERROR_CODE};
use near_api::json::{Json, Members};
use near_api::message::{build_request, parse_response, parse_response_json};
use near_api::network_info::RpcNetworkInfoError;
use near_api::provider::{self, AccessKeyWithPublicKey, ChangesKind, JsonRpcProvider, QueryRequest};
use near_api::transactions::{
    RpcBroadcastTransactionRequest, RpcBroadcastTxSyncResponse, RpcTransactionError,
    RpcTransactionStatusCommonRequest, SignedTransaction, TransactionInfo,
};
use near_api::types::{AccountId, BlockId, BlockReference, CryptoHash, Finality};
use near_api::keys::KeyType;
use near_api::connection::ConnectionInfo;
use near_api::wire::{read_json, write_json};

fn json(text: &str) -> Json {
    read_json(text.as_bytes()).ok().expect("test JSON must parse")
}

fn text(j: &Json) -> String {
    String::from_utf8(write_json(j).expect("test JSON must be writable")).expect("JSON text is UTF-8")
}

fn hash_of(b: u8) -> CryptoHash {
    CryptoHash([b; 32])
}

/// The borsh encoding of a signed transaction with no actions.
fn signed_transaction_bytes() -> Vec<u8> {
    let mut out = Vec::new();
    for account in ["alice.near"] {
        out.extend_from_slice(&(account.len() as u32).to_le_bytes());
        out.extend_from_slice(account.as_bytes());
    }
    out.push(0);
    out.extend_from_slice(&[1u8; 32]);
    out.extend_from_slice(&7u64.to_le_bytes());
    let receiver = "bob.near";
    out.extend_from_slice(&(receiver.len() as u32).to_le_bytes());
    out.extend_from_slice(receiver.as_bytes());
    out.extend_from_slice(&[2u8; 32]);
    out.extend_from_slice(&0u32.to_le_bytes());
    out.push(0);
    out.extend_from_slice(&[3u8; 64]);
    out
}

fn handler_wire(e: &RpcError) -> String {
    match &e.kind {
        RpcErrorKind::HandlerError(w) => text(w),
        _ => panic!("expected a handler error"),
    }
}

#[test]
fn json_text_round_trip() {
    let j = json(r#"{"a":[1,-2,true,null,"x"],"b":{"c":1.5}}"#);
    assert_eq!(text(&j), r#"{"a":[1,-2,true,null,"x"],"b":{"c":1.5}}"#);
}

#[test]
fn malformed_json_is_internal_error() {
    let r = parse_response(b"{\"id\": 1, \"result\": ");
    let e = r.err().unwrap();
    assert!(matches!(e.kind, RpcErrorKind::InternalError(_)));
    assert_eq!(e.code, SERVER_ERROR_CODE);
}

#[test]
fn envelope_needs_exactly_one_of_result_and_error() {
    assert!(parse_response(br#"{"id":1,"result":1,"error":{}}"#).is_err());
    assert!(parse_response(br#"{"id":1}"#).is_err());
    assert!(parse_response(br#"{"result":1}"#).is_err());
    let ok = parse_response(br#"{"jsonrpc":"2.0","id":"a","result":5}"#).ok().unwrap();
    assert_eq!(text(&ok.id), "\"a\"");
    assert_eq!(text(&ok.result.ok().unwrap()), "5");
    let err = parse_response(br#"{"id":2,"error":{"name":"X"}}"#).ok().unwrap();
    assert_eq!(text(&err.result.err().unwrap()), r#"{"name":"X"}"#);
}

#[test]
fn request_envelope_echoes_id_and_method() {
    let r = build_request("block", Some(json("[100]")), Json::Int(7));
    assert_eq!(text(&r), r#"{"id":7,"jsonrpc":"2.0","method":"block","params":[100]}"#);
    let none = build_request("status", None, json("\"x\""));
    assert_eq!(text(&none), r#"{"id":"x","jsonrpc":"2.0","method":"status"}"#);
    let parsed = parse_response_json(&json(r#"{"id":7,"result":null}"#)).ok().unwrap();
    assert_eq!(text(&parsed.id), "7");
}

#[test]
fn block_request_positional_and_named_agree() {
    let a = RpcBlockRequest::parse(Some(json("[100]"))).ok().unwrap();
    let b = RpcBlockRequest::parse(Some(json(r#"{"block_id": 100}"#))).ok().unwrap();
    assert!(matches!(a.block_reference, BlockReference::BlockId(BlockId::Height(100))));
    assert!(matches!(b.block_reference, BlockReference::BlockId(BlockId::Height(100))));
}

#[test]
fn block_request_other_shapes() {
    let f = RpcBlockRequest::parse(Some(json(r#"{"finality": "near-final"}"#))).ok().unwrap();
    assert!(matches!(f.block_reference, BlockReference::Finality(Finality::NearFinal)));
    let h = hash_of(9).to_base58();
    let p = RpcBlockRequest::parse(Some(json(&format!("[\"{}\"]", h)))).ok().unwrap();
    match p.block_reference {
        BlockReference::BlockId(BlockId::Hash(x)) => assert_eq!(x.0, [9u8; 32]),
        _ => panic!("expected a hash"),
    }
    let missing = RpcBlockRequest::parse(None).err().unwrap();
    assert_eq!(missing.0, "Require at least one parameters");
    let bad = RpcBlockRequest::parse(Some(json(r#"{"finality": "soon"}"#))).err().unwrap();
    assert!(bad.0.starts_with("Failed parsing args: "));
    assert!(RpcBlockRequest::parse(Some(json("[100, 2]"))).is_err());
    assert!(RpcBlockRequest::parse(Some(json(r#"{"block_id": 1, "finality": "final"}"#))).is_err());
}

#[test]
fn transaction_status_shapes() {
    let h = hash_of(4).to_base58();
    let pair = RpcTransactionStatusCommonRequest::parse(Some(json(&format!("[\"{}\", \"alice.near\"]", h)))).ok().unwrap();
    match pair.transaction_info {
        TransactionInfo::TransactionId { hash, account_id } => {
            assert_eq!(hash.0, [4u8; 32]);
            assert_eq!(account_id.as_str(), "alice.near");
        }
        _ => panic!("expected a transaction id"),
    }
    let bytes = signed_transaction_bytes();
    let encoded = base64::encode(&bytes);
    let full = RpcTransactionStatusCommonRequest::parse(Some(json(&format!("[\"{}\"]", encoded)))).ok().unwrap();
    match full.transaction_info {
        TransactionInfo::Transaction(t) => assert_eq!(t.bytes(), &bytes),
        _ => panic!("expected a signed transaction"),
    }
    let bad_account = format!("[\"{}\", \"Not Valid\"]", h);
    assert!(RpcTransactionStatusCommonRequest::parse(Some(json(&bad_account))).is_err());
}

#[test]
fn broadcast_request_decodes_transaction() {
    let bytes = signed_transaction_bytes();
    let ok = RpcBroadcastTransactionRequest::parse(Some(json(&format!("[\"{}\"]", base64::encode(&bytes))))).ok().unwrap();
    assert_eq!(ok.signed_transaction.bytes(), &bytes);
    let not_base64 = RpcBroadcastTransactionRequest::parse(Some(json("[\"%%%\"]"))).err().unwrap();
    assert!(not_base64.0.starts_with("Failed to decode transaction: "));
    let not_tx = RpcBroadcastTransactionRequest::parse(Some(json(&format!("[\"{}\"]", base64::encode([1u8, 2, 3]))))).err().unwrap();
    assert!(not_tx.0.starts_with("Failed to decode transaction: "));
    assert!(RpcBroadcastTransactionRequest::parse(None).is_err());
}

#[test]
fn scenario_block_by_height() {
    let p = JsonRpcProvider::new(ConnectionInfo::new("http://localhost:3030".to_string()));
    let c = p.block(&BlockId::Height(100));
    assert_eq!(c.method, "block");
    assert_eq!(text(c.params.as_ref().unwrap()), "[100]");
    let h = hash_of(5).to_base58();
    let body = format!(r#"{{"jsonrpc":"2.0","id":1,"result":{{"header":{{"hash":"{}"}}}}}}"#, h);
    let resp = provider::outcome_response(1, Ok(body.into_bytes())).ok().unwrap();
    let view = provider::block_result(resp).ok().unwrap();
    assert_eq!(view.header.hash.0, [5u8; 32]);
    assert_eq!(view.header.height, None);
}

#[test]
fn scenario_unknown_block() {
    let body = br#"{"jsonrpc":"2.0","id":1,"error":{"name":"UNKNOWN_BLOCK","info":{"error_message":"DB Not Found"}}}"#;
    let resp = provider::outcome_response(1, Ok(body.to_vec())).ok().unwrap();
    let e = provider::block_result(resp).err().unwrap();
    assert_eq!(e.code, SERVER_ERROR_CODE);
    assert!(e.message.contains("Block not found"));
    assert_eq!(e.message, "Block not found: DB Not Found");
    assert_eq!(handler_wire(&e), r#"{"info":{},"name":"UNKNOWN_BLOCK"}"#);
    let d = e.data.unwrap();
    assert_eq!(text(&d), "\"DB Not Found Error: DB Not Found \\n Cause: Unknown\"");
}

#[test]
fn scenario_transport_timeout() {
    let p = JsonRpcProvider::new(ConnectionInfo::new("http://localhost:3030".to_string()));
    let t = SignedTransaction::from_bytes(signed_transaction_bytes()).ok().unwrap();
    let c = p.send_transaction(&t);
    assert_eq!(c.method, "broadcast_tx_commit");
    let e = provider::outcome_response(1, Err("timeout".to_string())).err().unwrap();
    assert!(matches!(e.kind, RpcErrorKind::TransportError));
    assert_eq!(e.code, TRANSPORT_ERROR_CODE);
    assert_eq!(e.message, "timeout");
    let body = br#"{"id":1,"error":{"name":"TIMEOUT_ERROR"}}"#;
    let resp = provider::outcome_response(1, Ok(body.to_vec())).ok().unwrap();
    let h = provider::transaction_result(resp).err().unwrap();
    assert!(matches!(h.kind, RpcErrorKind::HandlerError(_)));
    assert_eq!(h.message, "Timeout");
}

#[test]
fn block_error_codes_and_fallback() {
    let cases = [
        (r#"{"name":"UNKNOWN_BLOCK","info":{"error_message":"m"}}"#, "UNKNOWN_BLOCK"),
        (r#"{"name":"NOT_SYNCED_YET"}"#, "NOT_SYNCED_YET"),
        (r#"{"name":"HANDLER_ERROR","cause":{"name":"NOT_SYNCED_YET"}}"#, "NOT_SYNCED_YET"),
    ];
    for (wire, tag) in cases {
        let e = RpcBlockError::from_wire(&json(wire)).into_rpc_error();
        assert_eq!(e.code, SERVER_ERROR_CODE);
        assert!(handler_wire(&e).contains(tag));
    }
    let internal = RpcBlockError::from_wire(&json(r#"{"name":"INTERNAL_ERROR","info":{"error_message":"busy"}}"#));
    assert!(matches!(&internal, RpcBlockError::InternalError { error_message } if error_message == "busy"));
    let e = internal.into_rpc_error();
    assert!(matches!(e.kind, RpcErrorKind::InternalError(_)));
    assert_eq!(e.message, "busy");
    let unknown = RpcBlockError::from_wire(&json(r#"{"name":"SOMETHING_NEW","info":{}}"#));
    assert!(matches!(&unknown, RpcBlockError::InternalError { error_message } if error_message.contains("SOMETHING_NEW")));
    assert!(matches!(RpcBlockError::from_wire(&json("42")), RpcBlockError::InternalError { .. }));
}

#[test]
fn block_error_round_trip() {
    let unknown = RpcBlockError::UnknownBlock { error_message: "x".to_string() };
    assert_eq!(text(&unknown.to_wire()), r#"{"info":{},"name":"UNKNOWN_BLOCK"}"#);
    let errors = vec![
        RpcBlockError::NotSyncedYet,
        RpcBlockError::InternalError { error_message: "y".to_string() },
    ];
    for e in errors {
        let back = RpcBlockError::from_wire(&e.to_wire());
        assert_eq!(text(&back.to_wire()), text(&e.to_wire()));
        assert_eq!(back.message(), e.message());
    }
    assert_eq!(RpcBlockError::NotSyncedYet.message(), "There are no fully synchronized blocks yet");
}

#[test]
fn transaction_errors() {
    let h = hash_of(8);
    let routed = RpcTransactionError::RequestRouted { transaction_hash: h.copy() };
    let back = RpcTransactionError::from_wire(&routed.to_wire());
    match back {
        RpcTransactionError::RequestRouted { transaction_hash } => assert_eq!(transaction_hash.0, [8u8; 32]),
        _ => panic!("expected a routed request"),
    }
    assert_eq!(routed.message(), format!("Transaction with hash {} was routed", h.to_base58()));
    let unknown = RpcTransactionError::from_wire(&json(&format!(
        r#"{{"name":"UNKNOWN_TRANSACTION","info":{{"requested_transaction_hash":"{}"}}}}"#,
        h.to_base58()
    )));
    assert!(matches!(unknown, RpcTransactionError::UnknownTransaction { .. }));
    let invalid = RpcTransactionError::from_wire(&json(r#"{"name":"INVALID_TRANSACTION","info":{"context":{"InvalidNonce":{}}}}"#));
    assert!(matches!(invalid, RpcTransactionError::InvalidTransaction { .. }));
    assert!(matches!(RpcTransactionError::from_wire(&json(r#"{"name":"DOES_NOT_TRACK_SHARD"}"#)), RpcTransactionError::DoesNotTrackShard));
    let internal = RpcTransactionError::from_wire(&json(r#"{"name":"INTERNAL_ERROR","info":{"debug_info":"d"}}"#)).into_rpc_error();
    assert!(matches!(internal.kind, RpcErrorKind::InternalError(_)));
    assert_eq!(internal.message, "d");
    let t = RpcTransactionError::TimeoutError.into_rpc_error();
    assert!(matches!(t.kind, RpcErrorKind::HandlerError(_)));
    assert_eq!(t.code, SERVER_ERROR_CODE);
}

#[test]
fn other_error_enums() {
    let c = RpcStateChangesError::from_wire(&json(r#"{"name":"NOT_SYNCED_YET"}"#)).into_rpc_error();
    assert_eq!(c.code, SERVER_ERROR_CODE);
    assert_eq!(text(c.data.as_ref().unwrap()), handler_wire(&c));
    let p = RpcProtocolConfigError::from_wire(&json(r#"{"name":"UNKNOWN_BLOCK","info":{"error_message":"gone"}}"#));
    assert_eq!(p.message(), "Block has never been observed: gone");
    assert!(matches!(RpcProtocolConfigError::from_wire(&json("{}")), RpcProtocolConfigError::InternalError { .. }));
    let n = RpcNetworkInfoError::from_message("down".to_string());
    assert_eq!(n.message(), "Internal error: down");
    let g = n.into_rpc_error();
    assert!(matches!(g.kind, RpcErrorKind::InternalError(_)));
    assert_eq!(g.message, "down");
}

#[test]
fn generic_error_constructors() {
    let from_parse = RpcBlockRequest::parse(None).err().unwrap().into_rpc_error();
    assert_eq!(from_parse.code, PARSE_ERROR_CODE);
    assert_eq!(from_parse.message, "Require at least one parameters");
    let p = RpcError::parse_error("bad".to_string());
    assert_eq!(p.code, PARSE_ERROR_CODE);
    assert!(matches!(p.kind, RpcErrorKind::ParseError));
    let i = RpcError::new_internal_or_handler_error(None, json(r#"{"name":"INTERNAL_ERROR","info":{"error_message":"z"}}"#), "shown".to_string());
    assert_eq!(i.message, "z");
    let h = RpcError::new_internal_or_handler_error(None, json(r#"{"name":"OTHER"}"#), "shown".to_string());
    assert_eq!(h.message, "shown");
    assert!(matches!(h.kind, RpcErrorKind::HandlerError(_)));
}

#[test]
fn block_reference_round_trip() {
    let refs = vec![
        BlockReference::BlockId(BlockId::Height(0)),
        BlockReference::BlockId(BlockId::Height(u64::MAX)),
        BlockReference::BlockId(BlockId::Hash(hash_of(1))),
        BlockReference::Finality(Finality::Optimistic),
        BlockReference::Finality(Finality::NearFinal),
        BlockReference::Finality(Finality::Final),
    ];
    for r in refs {
        let j = r.to_json();
        let back = BlockReference::from_json(&j).ok().unwrap();
        assert_eq!(text(&back.to_json()), text(&j));
    }
    assert_eq!(text(&BlockReference::Finality(Finality::Optimistic).to_json()), r#"{"finality":"optimistic"}"#);
}

#[test]
fn block_view_and_changes_round_trip() {
    let v = BlockView { header: BlockHeaderView { hash: hash_of(3), height: Some(42) } };
    let back = BlockView::from_json(&v.to_json()).ok().unwrap();
    assert_eq!(back.header.hash.0, [3u8; 32]);
    assert_eq!(back.header.height, Some(42));
    assert!(BlockView::from_json(&json(r#"{"header":{"height":1}}"#)).is_err());
    let c = RpcStateChangesInBlockResponse { block_hash: hash_of(6), changes: json("[1,2]") };
    let d = RpcStateChangesInBlockResponse::from_json(&c.to_json()).ok().unwrap();
    assert_eq!(d.block_hash.0, [6u8; 32]);
    assert_eq!(text(&d.changes), "[1,2]");
    let s = RpcBroadcastTxSyncResponse { transaction_hash: hash_of(2) };
    assert_eq!(RpcBroadcastTxSyncResponse::from_json(&s.to_json()).ok().unwrap().transaction_hash.0, [2u8; 32]);
}

#[test]
fn changes_and_config_requests() {
    let c = RpcStateChangesInBlockRequest::parse(Some(json(r#"{"finality":"final"}"#))).ok().unwrap();
    assert!(matches!(c.block_reference, BlockReference::Finality(Finality::Final)));
    let t = RpcStateChangesInBlockByTypeRequest::parse(Some(json(
        r#"{"changes_type":"account_changes","account_ids":["a.near"],"block_id":5}"#,
    )))
    .ok()
    .unwrap();
    assert!(matches!(t.block_reference, BlockReference::BlockId(BlockId::Height(5))));
    assert!(RpcStateChangesInBlockByTypeRequest::parse(Some(json(r#"{"block_id":5}"#))).is_err());
    let p = RpcProtocolConfigRequest::parse(Some(json(r#"{"block_id":7}"#))).ok().unwrap();
    assert!(matches!(p.block_reference, BlockReference::BlockId(BlockId::Height(7))));
    assert!(RpcProtocolConfigRequest::parse(None).is_err());
}

#[test]
fn provider_calls() {
    let p = JsonRpcProvider::new(ConnectionInfo::new("u".to_string()));
    assert_eq!(p.url(), "u");
    assert_eq!(p.status().method, "status");
    assert_eq!(p.network_info().method, "network_info");
    let a = AccountId::parse("alice.near").ok().unwrap();
    let tx = p.tx_status(&hash_of(0), &a);
    assert_eq!(text(tx.params.as_ref().unwrap()), r#"["11111111111111111111111111111111","alice.near"]"#);
    let changes = p.changes(
        ChangesKind::DataChanges { account_ids: vec![a.copy()], key_prefix: vec![1, 2, 3] },
        &BlockReference::Finality(Finality::Final),
    );
    assert_eq!(changes.method, "EXPERIMENTAL_changes");
    assert_eq!(
        text(changes.params.as_ref().unwrap()),
        r#"{"account_ids":["alice.near"],"changes_type":"data_changes","finality":"final","key_prefix_base64":"AQID"}"#
    );
    let body = p.request_body(p.experimental_protocol_config(&BlockReference::BlockId(BlockId::Height(3))), Json::Int(1));
    assert_eq!(text(&body), r#"{"id":1,"jsonrpc":"2.0","method":"EXPERIMENTAL_protocol_config","params":{"block_id":3}}"#);
}

#[test]
fn identifiers_through_outside_crates() {
    assert_eq!(hash_of(0).to_base58(), "11111111111111111111111111111111");
    assert!(CryptoHash::from_base58("abc").is_err());
    assert!(AccountId::parse("A").is_err());
    assert!(AccountId::parse("alice.near").is_ok());
    assert!(KeyType::from_str("ed25519").is_ok());
    assert!(KeyType::from_str("secp").is_err());
    assert_eq!(KeyType::ED25519.to_string(), "ed25519");
    let _ = Members::Nil;
}

#[test]
fn connection_info_defaults() {
    let c = ConnectionInfo::new("http://node".to_string());
    assert_eq!(c.url, "http://node");
    assert_eq!(c.timeout, Some(60));
    assert!(!c.allow_insecure);
    assert!(c.user.is_none() && c.password.is_none());
    assert!(c.headers.get("Content-Type").is_none());
    let mut h = near_api::connection::Headers::new();
    h.insert("Content-Type".to_string(), "application/json".to_string());
    assert_eq!(h.get("Content-Type"), Some("application/json".to_string()));
}

#[test]
fn network_info_result_decodes() {
    let body = br#"{"id":1,"result":{"active_peers":[],"num_active_peers":3,"peer_max_count":40,"sent_bytes_per_sec":10,"received_bytes_per_sec":20,"known_producers":[]}}"#;
    let resp = provider::outcome_response(1, Ok(body.to_vec())).ok().unwrap();
    let v = provider::network_info_result(resp).ok().unwrap();
    assert_eq!(v.num_active_peers, 3);
    assert_eq!(v.peer_max_count, 40);
    assert_eq!(v.received_bytes_per_sec, 20);
    let bad = br#"{"id":1,"result":{"active_peers":[]}}"#;
    let resp = provider::outcome_response(1, Ok(bad.to_vec())).ok().unwrap();
    assert!(provider::network_info_result(resp).is_err());
}

#[test]
fn query_parameters() {
    let p = JsonRpcProvider::new(ConnectionInfo::new("u".to_string()));
    let a = AccountId::parse("alice.near").ok().unwrap();
    let q = p.query(&QueryRequest::ViewAccount { account_id: a.copy() }, &BlockReference::Finality(Finality::Optimistic));
    assert_eq!(q.method, "query");
    assert_eq!(
        text(q.params.as_ref().unwrap()),
        r#"{"account_id":"alice.near","finality":"optimistic","request_type":"view_account"}"#
    );
    let c = QueryRequest::CallFunction { account_id: a, method_name: "get".to_string(), args: vec![123, 125] }
        .to_json(&BlockReference::BlockId(BlockId::Height(9)));
    assert_eq!(
        text(&c),
        r#"{"account_id":"alice.near","args_base64":"e30=","block_id":9,"method_name":"get","request_type":"call_function"}"#
    );
}

#[test]
fn state_changes_error_variants() {
    let u = RpcStateChangesError::from_wire(&json(r#"{"name":"UNKNOWN_BLOCK","info":{"error_message":"q"}}"#));
    assert_eq!(u.message(), "Block not found: q");
    let i = RpcStateChangesError::from_wire(&json(r#"{"name":"INTERNAL_ERROR","info":{"error_message":"w"}}"#)).into_rpc_error();
    assert!(matches!(i.kind, RpcErrorKind::InternalError(_)));
    assert_eq!(i.message, "w");
    assert!(matches!(RpcStateChangesError::from_wire(&json(r#"{"name":"NEW"}"#)), RpcStateChangesError::InternalError { .. }));
}

#[test]
fn malformed_json_reason_comes_from_parser() {
    let e = parse_response(b"not json").err().unwrap();
    assert!(!e.message.is_empty());
    assert_ne!(e.message, "not json");
}

#[test]
fn access_key_cache_is_consulted_before_querying() {
    let p = JsonRpcProvider::new(ConnectionInfo::new("u".to_string()));
    let a = AccountId::parse("alice.near").ok().unwrap();
    let mut cache = AccessKeyCache::new();
    match find_access_key(&cache, &p, &a, "ed25519:abc") {
        FindAccessKey::Query(c) => {
            assert_eq!(c.method, "query");
            assert_eq!(
                text(c.params.as_ref().unwrap()),
                r#"{"account_id":"alice.near","finality":"optimistic","public_key":"ed25519:abc","request_type":"view_access_key"}"#
            );
        }
        FindAccessKey::Cached(_) => panic!("the cache starts empty"),
    }
    let bad = record_access_key(&mut cache, "ed25519:abc", Ok(json(r#"{"permission":"FullAccess"}"#)));
    assert!(bad.is_err());
    assert!(cache.get("ed25519:abc").is_none());
    let v = record_access_key(&mut cache, "ed25519:abc", Ok(json(r#"{"nonce":5,"permission":"FullAccess","block_height":1}"#))).ok().unwrap();
    assert_eq!(v.nonce, 5);
    match find_access_key(&cache, &p, &a, "ed25519:abc") {
        FindAccessKey::Cached(k) => {
            assert_eq!(k.nonce, 5);
            assert_eq!(text(&k.permission), "\"FullAccess\"");
        }
        FindAccessKey::Query(_) => panic!("the key was cached"),
    }
    let state = near_api::account::state(&p, &a);
    assert_eq!(text(state.params.as_ref().unwrap()), r#"{"account_id":"alice.near","finality":"optimistic","request_type":"view_account"}"#);
}

#[test]
fn response_must_answer_the_request_sent() {
    let body = br#"{"id":2,"result":null}"#;
    let e = provider::outcome_response(1, Ok(body.to_vec())).err().unwrap();
    assert!(matches!(e.kind, RpcErrorKind::InternalError(_)));
    assert!(provider::outcome_response(2, Ok(body.to_vec())).is_ok());
}

#[test]
fn public_key_text_forms() {
    let k = near_api::keys::PublicKey::from_str("ed25519:abc").ok().unwrap();
    assert_eq!(k.key_data, vec![3, 0, 0, 0, b'a', b'b', b'c']);
    assert_eq!(k.to_string(), Some("ed25519:abc".to_string()));
    let bare = near_api::keys::PublicKey::from_str("abc").ok().unwrap();
    assert_eq!(bare.key_data, k.key_data);
    assert!(near_api::keys::PublicKey::from_str("secp256k1:abc").is_err());
    assert!(near_api::keys::PublicKey::from_str("ed25519:a:b").is_err());
    let odd = near_api::keys::PublicKey { key_type: KeyType::ED25519, key_data: vec![9] };
    assert_eq!(odd.to_string(), None);
}

#[test]
fn account_id_rules() {
    assert!(AccountId::parse("ab").is_ok());
    assert!(AccountId::parse("a-b_c.near").is_ok());
    assert!(AccountId::parse("a").is_err());
    assert!(AccountId::parse("a..b").is_err());
    assert!(AccountId::parse("-ab").is_err());
    assert!(AccountId::parse("ab.").is_err());
    assert!(AccountId::parse(&"a".repeat(64)).is_ok());
    assert!(AccountId::parse(&"a".repeat(65)).is_err());
}

#[test]
fn written_text_reads_back() {
    let j = json(r#"{"b":[1,{"c":null}],"a":"x"}"#);
    let bytes = write_json(&j).unwrap();
    let back = read_json(&bytes).ok().unwrap();
    assert_eq!(text(&back), text(&j));
    assert!(write_json(&Json::Int(i128::MAX)).is_none());
}

#[test]
fn changes_request_reads_back() {
    let p = JsonRpcProvider::new(ConnectionInfo::new("u".to_string()));
    let a = AccountId::parse("alice.near").ok().unwrap();
    let keys = vec![AccessKeyWithPublicKey { account_id: a.copy(), public_key: "ed25519:abc".to_string() }];
    let c = p.changes(ChangesKind::SingleAccessKeyChanges { keys }, &BlockReference::BlockId(BlockId::Height(4)));
    assert_eq!(
        text(c.params.as_ref().unwrap()),
        r#"{"block_id":4,"changes_type":"single_access_key_changes","keys":[{"account_id":"alice.near","public_key":"ed25519:abc"}]}"#
    );
    let back = RpcStateChangesInBlockByTypeRequest::parse(c.params).ok().unwrap();
    assert!(matches!(back.block_reference, BlockReference::BlockId(BlockId::Height(4))));
    match back.state_changes_request {
        ChangesKind::SingleAccessKeyChanges { keys } => {
            assert_eq!(keys.len(), 1);
            assert_eq!(keys[0].account_id.as_str(), "alice.near");
            assert_eq!(keys[0].public_key, "ed25519:abc");
        }
        _ => panic!("expected single access key changes"),
    }
    let d = p.changes(
        ChangesKind::DataChanges { account_ids: vec![a], key_prefix: vec![1, 2] },
        &BlockReference::Finality(Finality::Final),
    );
    match RpcStateChangesInBlockByTypeRequest::parse(d.params).ok().unwrap().state_changes_request {
        ChangesKind::DataChanges { account_ids, key_prefix } => {
            assert_eq!(account_ids[0].as_str(), "alice.near");
            assert_eq!(key_prefix, vec![1, 2]);
        }
        _ => panic!("expected data changes"),
    }
    assert!(RpcStateChangesInBlockByTypeRequest::parse(Some(json(r#"{"changes_type":"account_changes","account_ids":["Bad Id"],"finality":"final"}"#))).is_err());
}

#[test]
fn parse_errors_come_from_the_fallback_parser() {
    let e = RpcBlockRequest::parse(Some(json(r#"{"finality":"soon"}"#))).err().unwrap();
    assert_eq!(e.0, "Failed parsing args: unknown finality");
    let t = RpcTransactionStatusCommonRequest::parse(Some(json("[1]"))).err().unwrap();
    assert_eq!(t.0, "Failed parsing args: expected a list holding one base64 string");
}

#[test]
fn results_must_have_the_view_shape() {
    let body = br#"{"id":1,"result":{"unexpected":true}}"#;
    let resp = provider::outcome_response(1, Ok(body.to_vec())).ok().unwrap();
    let e = provider::view_result(resp, near_api::views::ViewShape::GasPrice).err().unwrap();
    assert!(matches!(e.kind, RpcErrorKind::InternalError(_)));
    let ok = br#"{"id":1,"result":{"gas_price":"100000000"}}"#;
    let resp = provider::outcome_response(1, Ok(ok.to_vec())).ok().unwrap();
    assert!(provider::view_result(resp, near_api::views::ViewShape::GasPrice).is_ok());
    let changes = br#"{"id":1,"result":[]}"#;
    let resp = provider::outcome_response(1, Ok(changes.to_vec())).ok().unwrap();
    assert!(provider::changes_result(resp).is_ok());
    let outcome = br#"{"id":1,"result":[1]}"#;
    let resp = provider::outcome_response(1, Ok(outcome.to_vec())).ok().unwrap();
    assert!(provider::transaction_result(resp).is_err());
}

#[test]
fn network_info_peers_are_typed() {
    let body = br#"{"id":1,"result":{"active_peers":[{"id":"ed25519:abc","addr":"1.2.3.4:24567","account_id":null}],"num_active_peers":1,"peer_max_count":40,"sent_bytes_per_sec":0,"received_bytes_per_sec":0,"known_producers":[{"account_id":"v.near","addr":null,"peer_id":"ed25519:def"}]}}"#;
    let resp = provider::outcome_response(1, Ok(body.to_vec())).ok().unwrap();
    let v = provider::network_info_result(resp).ok().unwrap();
    assert_eq!(v.active_peers[0].id, "ed25519:abc");
    assert_eq!(v.active_peers[0].addr, Some("1.2.3.4:24567".to_string()));
    assert!(v.active_peers[0].account_id.is_none());
    assert_eq!(v.known_producers[0].account_id.as_str(), "v.near");
    let again = near_api::network_info::RpcNetworkInfoResponse::from_json(&v.to_json()).ok().unwrap();
    assert_eq!(again.known_producers[0].peer_id, "ed25519:def");
    let bad = br#"{"id":1,"result":{"active_peers":[{"addr":null}],"num_active_peers":1,"peer_max_count":40,"sent_bytes_per_sec":0,"received_bytes_per_sec":0,"known_producers":[]}}"#;
    let resp = provider::outcome_response(1, Ok(bad.to_vec())).ok().unwrap();
    assert!(provider::network_info_result(resp).is_err());
}
