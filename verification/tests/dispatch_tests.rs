use opsigner::adapter::{KeyId, MockConfig, MockSigner, SignerAdapter, TxError};
use opsigner::cache::SignerCache;
use opsigner::dispatch::{handle_eth_sign_jsonrpc, handle_health_status};
use opsigner::errors::SignerError;
use opsigner::jsonrpc::{JsonRpcRequest, JsonRpcResult, JsonValue};

/// An adapter that aborts the test if any backend work is attempted.
struct PanickingAdapter;

impl SignerAdapter for PanickingAdapter {
    type Config = ();

    fn connect(_cfg: &(), _key: &KeyId) -> Result<Self, String> {
        panic!("the backend must not be touched");
    }

    fn share(&self) -> Self {
        panic!("the backend must not be touched");
    }

    fn sign_hash(&self, _hash: &Vec<u8>) -> Result<Vec<u8>, String> {
        panic!("the backend must not be touched");
    }

    fn sign_transaction(&self, _tx: &JsonValue) -> Result<Vec<u8>, TxError> {
        panic!("the backend must not be touched");
    }

    fn address_bytes(&self) -> Vec<u8> {
        panic!("the backend must not be touched");
    }
}

fn block_args_obj() -> JsonValue {
    JsonValue::Obj(vec![
        (String::from("domain"), JsonValue::Str(format!("0x{}", "00".repeat(32)))),
        (String::from("chainId"), JsonValue::Str(String::from("1"))),
        (String::from("payloadHash"), JsonValue::Str(format!("0x{}", "11".repeat(32)))),
        (String::from("senderAddress"), JsonValue::Str(format!("0x{}", "00".repeat(20)))),
    ])
}

fn request(method: &str, params: Option<Vec<JsonValue>>) -> JsonRpcRequest {
    JsonRpcRequest {
        id: JsonValue::Int(1),
        jsonrpc: String::from("2.0"),
        method: String::from(method),
        params,
    }
}

#[test]
fn sign_block_payload_end_to_end() {
    let mut cache: SignerCache<MockSigner> = SignerCache::new();
    let cfg = MockConfig { allow: true };
    let key = KeyId::Cloud(b"test-key".to_vec());
    let version = String::from("0.1.0");
    let req = request("opsigner_signBlockPayload", Some(vec![block_args_obj()]));
    let rep = handle_eth_sign_jsonrpc(req, &mut cache, &cfg, &key, &version).unwrap();
    assert!(matches!(rep.id, JsonValue::Int(1)));
    assert_eq!(rep.jsonrpc, "2.0");
    match rep.result {
        JsonRpcResult::Result(JsonValue::Str(sig)) => {
            assert!(sig.starts_with("0x"));
            assert_eq!(sig.len(), 132);
            assert!(sig[2..].chars().all(|c| c.is_ascii_hexdigit()));
            let last = u8::from_str_radix(&sig[130..], 16).unwrap();
            assert!(last == 0 || last == 1);
        }
        other => panic!("expected a hex string result, got {:?}", other),
    }
    assert_eq!(cache.len(), 1);
}

#[test]
fn unsupported_method_names_the_three() {
    let mut cache: SignerCache<PanickingAdapter> = SignerCache::new();
    let req = request("eth_foo", None);
    let e = handle_eth_sign_jsonrpc(req, &mut cache, &(), &KeyId::Device(1), &String::from("v"))
        .unwrap_err();
    match &e {
        SignerError::UnsupportedMethod(m) => assert_eq!(m, "eth_foo"),
        other => panic!("expected UnsupportedMethod, got {:?}", other),
    }
    assert_eq!(
        e.message(),
        "method not supported (only eth_signTransaction, health_status and \
         opsigner_signBlockPayload): eth_foo"
    );
}

#[test]
fn empty_params_fail_before_the_cache() {
    let mut cache: SignerCache<PanickingAdapter> = SignerCache::new();
    let req = request("eth_signTransaction", Some(vec![]));
    let e = handle_eth_sign_jsonrpc(req, &mut cache, &(), &KeyId::Device(1), &String::from("v"))
        .unwrap_err();
    match &e {
        SignerError::InvalidArgument(_) => {}
        other => panic!("expected InvalidArgument, got {:?}", other),
    }
    assert_eq!(e.message(), "params is empty");
    assert_eq!(cache.len(), 0);
}

#[test]
fn absent_params_fail_for_block_signing_too() {
    let mut cache: SignerCache<PanickingAdapter> = SignerCache::new();
    let req = request("opsigner_signBlockPayload", None);
    let e = handle_eth_sign_jsonrpc(req, &mut cache, &(), &KeyId::Device(1), &String::from("v"))
        .unwrap_err();
    assert_eq!(e.message(), "params is empty");
    assert_eq!(cache.len(), 0);
}

#[test]
fn health_status_touches_no_backend() {
    let mut cache: SignerCache<PanickingAdapter> = SignerCache::new();
    let req = request("health_status", None);
    let rep = handle_eth_sign_jsonrpc(req, &mut cache, &(), &KeyId::Device(1), &String::from("3.4.5"))
        .unwrap();
    match rep.result {
        JsonRpcResult::Result(JsonValue::Str(v)) => assert_eq!(v, "3.4.5"),
        other => panic!("expected the version string, got {:?}", other),
    }
    assert_eq!(cache.len(), 0);
}

#[test]
fn health_status_echoes_envelope() {
    let req = request("health_status", None);
    let rep = handle_health_status(req, &String::from("9"));
    assert!(matches!(rep.id, JsonValue::Int(1)));
    assert_eq!(rep.jsonrpc, "2.0");
}

#[test]
fn sign_transaction_encodes_the_envelope() {
    let mut cache: SignerCache<MockSigner> = SignerCache::new();
    let cfg = MockConfig { allow: true };
    let key = KeyId::Device(7);
    let req = request("eth_signTransaction", Some(vec![JsonValue::Obj(vec![])]));
    let rep = handle_eth_sign_jsonrpc(req, &mut cache, &cfg, &key, &String::from("v")).unwrap();
    match rep.result {
        // The deterministic test signer encodes to [2, seed].
        JsonRpcResult::Result(JsonValue::Str(h)) => assert_eq!(h, "0x0207"),
        other => panic!("expected a hex string result, got {:?}", other),
    }
}

#[test]
fn backend_failure_surfaces_as_backend_unavailable() {
    let mut cache: SignerCache<MockSigner> = SignerCache::new();
    let cfg = MockConfig { allow: false };
    let key = KeyId::Device(7);
    let req = request("opsigner_signBlockPayload", Some(vec![block_args_obj()]));
    let e = handle_eth_sign_jsonrpc(req, &mut cache, &cfg, &key, &String::from("v")).unwrap_err();
    assert!(matches!(e, SignerError::BackendUnavailable(_)));
    assert_eq!(cache.len(), 0);
}

/// An adapter whose recovery byte violates the 27/28 convention.
struct BadRecoveryAdapter;

impl SignerAdapter for BadRecoveryAdapter {
    type Config = ();

    fn connect(_cfg: &(), _key: &KeyId) -> Result<Self, String> {
        Ok(BadRecoveryAdapter)
    }

    fn share(&self) -> Self {
        BadRecoveryAdapter
    }

    fn sign_hash(&self, _hash: &Vec<u8>) -> Result<Vec<u8>, String> {
        Ok(vec![0u8; 65])
    }

    fn sign_transaction(&self, _tx: &JsonValue) -> Result<Vec<u8>, TxError> {
        Ok(vec![])
    }

    fn address_bytes(&self) -> Vec<u8> {
        vec![0u8; 20]
    }
}

#[test]
fn bad_recovery_byte_is_an_integrity_error() {
    let mut cache: SignerCache<BadRecoveryAdapter> = SignerCache::new();
    let req = request("opsigner_signBlockPayload", Some(vec![block_args_obj()]));
    let e = handle_eth_sign_jsonrpc(req, &mut cache, &(), &KeyId::Device(1), &String::from("v"))
        .unwrap_err();
    assert!(matches!(e, SignerError::InvalidRecoveryId(0)));
}

#[test]
fn invalid_arguments_fail_before_the_cache() {
    let mut cache: SignerCache<PanickingAdapter> = SignerCache::new();
    let bad = JsonValue::Obj(vec![
        (String::from("domain"), JsonValue::Str(format!("0x{}", "00".repeat(31)))),
        (String::from("chainId"), JsonValue::Str(String::from("1"))),
        (String::from("payloadHash"), JsonValue::Str(format!("0x{}", "11".repeat(32)))),
        (String::from("senderAddress"), JsonValue::Str(format!("0x{}", "00".repeat(20)))),
    ]);
    let req = request("opsigner_signBlockPayload", Some(vec![bad]));
    let e = handle_eth_sign_jsonrpc(req, &mut cache, &(), &KeyId::Device(1), &String::from("v"))
        .unwrap_err();
    assert!(matches!(e, SignerError::InvalidArgument(_)));
    assert_eq!(cache.len(), 0);
}

#[test]
fn oversized_chain_id_fails_before_the_cache() {
    let mut cache: SignerCache<PanickingAdapter> = SignerCache::new();
    let mut entries = match block_args_obj() {
        JsonValue::Obj(entries) => entries,
        _ => unreachable!(),
    };
    entries[1].1 = JsonValue::Str(format!("0x1{}", "00".repeat(32)));
    let req = request("opsigner_signBlockPayload", Some(vec![JsonValue::Obj(entries)]));
    let e = handle_eth_sign_jsonrpc(req, &mut cache, &(), &KeyId::Device(1), &String::from("v"))
        .unwrap_err();
    assert!(matches!(e, SignerError::InvalidArgument(_)));
    assert_eq!(cache.len(), 0);
}

/// An adapter whose transaction builder rejects the request object.
struct RejectingTxAdapter;

impl SignerAdapter for RejectingTxAdapter {
    type Config = ();

    fn connect(_cfg: &(), _key: &KeyId) -> Result<Self, String> {
        Ok(RejectingTxAdapter)
    }

    fn share(&self) -> Self {
        RejectingTxAdapter
    }

    fn sign_hash(&self, _hash: &Vec<u8>) -> Result<Vec<u8>, String> {
        Err(String::from("no hashes here"))
    }

    fn sign_transaction(&self, _tx: &JsonValue) -> Result<Vec<u8>, TxError> {
        Err(TxError::InvalidTransaction(String::from("missing field `to`")))
    }

    fn address_bytes(&self) -> Vec<u8> {
        vec![0u8; 20]
    }
}

#[test]
fn malformed_transaction_is_an_invalid_argument() {
    let mut cache: SignerCache<RejectingTxAdapter> = SignerCache::new();
    let req = request("eth_signTransaction", Some(vec![JsonValue::Obj(vec![])]));
    let e = handle_eth_sign_jsonrpc(req, &mut cache, &(), &KeyId::Device(1), &String::from("v"))
        .unwrap_err();
    match &e {
        SignerError::InvalidArgument(m) => {
            assert_eq!(m, "invalid transaction: missing field `to`")
        }
        other => panic!("expected InvalidArgument, got {:?}", other),
    }
}
