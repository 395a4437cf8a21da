use opsigner::adapter::{clone_key, key_eq, KeyId, MockSigner, SignerAdapter};
use opsigner::config::{
    create_connector, key_capabilities, ConnectorConfig, KeyCapabilities, YubiCommand, YubiMode,
    YubiOpt, DEFAULT_HTTP_TIMEOUT_MS, DEFAULT_USB_TIMEOUT_MS,
};
use opsigner::dispatch::{address_response, error_reply};
use opsigner::errors::SignerError;
use opsigner::jsonrpc::{JsonRpcResult, JsonValue};

fn opt(mode: YubiMode) -> YubiOpt {
    YubiOpt {
        mode,
        device_serial_id: Some(String::from("0123456789")),
        http_address: Some(String::from("127.0.0.1")),
        http_port: Some(12345),
        auth_key_id: 1,
        password: String::from("pw"),
        cmd: YubiCommand::Serve,
    }
}

#[test]
fn usb_connector_takes_the_serial() {
    match create_connector(&opt(YubiMode::Usb)) {
        ConnectorConfig::Usb { serial, timeout_ms } => {
            assert_eq!(serial, "0123456789");
            assert_eq!(timeout_ms, DEFAULT_USB_TIMEOUT_MS);
        }
        other => panic!("expected a USB connector, got {:?}", other),
    }
}

#[test]
fn http_connector_takes_address_and_port() {
    match create_connector(&opt(YubiMode::Http)) {
        ConnectorConfig::Http { addr, port, timeout_ms } => {
            assert_eq!(addr, "127.0.0.1");
            assert_eq!(port, 12345);
            assert_eq!(timeout_ms, DEFAULT_HTTP_TIMEOUT_MS);
        }
        other => panic!("expected an HTTP connector, got {:?}", other),
    }
}

#[test]
fn mock_connector_needs_nothing() {
    assert!(matches!(create_connector(&opt(YubiMode::Mock)), ConnectorConfig::Mock));
}

#[test]
fn key_identity() {
    let a = KeyId::Cloud(b"k1".to_vec());
    let b = KeyId::Cloud(b"k1".to_vec());
    let c = KeyId::Cloud(b"k2".to_vec());
    let d = KeyId::Device(0x6b31);
    assert!(key_eq(&a, &b));
    assert!(!key_eq(&a, &c));
    assert!(!key_eq(&a, &d));
    assert!(key_eq(&d, &KeyId::Device(0x6b31)));
    assert!(!key_eq(&d, &KeyId::Device(0x6b32)));
    assert!(key_eq(&a, &clone_key(&a)));
    assert!(key_eq(&d, &clone_key(&d)));
}

#[test]
fn address_is_twenty_bytes_of_hex() {
    let signer = MockSigner { seed: 0xab };
    let r = address_response(&signer);
    assert_eq!(r.address, format!("0x{}", "ab".repeat(20)));
}

#[test]
fn error_reply_carries_the_message() {
    let e = SignerError::InvalidArgument(String::from("params is empty"));
    let rep = error_reply(JsonValue::Int(4), String::from("2.0"), &e);
    assert!(matches!(rep.id, JsonValue::Int(4)));
    assert_eq!(rep.jsonrpc, "2.0");
    match rep.result {
        JsonRpcResult::Error(m) => assert_eq!(m, "params is empty"),
        other => panic!("expected an error result, got {:?}", other),
    }
}

#[test]
fn backend_unavailable_message_names_the_cause() {
    let e = SignerError::BackendUnavailable(String::from("device unreachable"));
    assert_eq!(e.message(), "backend unavailable: device unreachable");
}

#[test]
fn mock_signer_address_bytes() {
    let signer = MockSigner { seed: 3 };
    assert_eq!(signer.address_bytes(), vec![3u8; 20]);
}

#[test]
fn key_capabilities_follow_the_exportable_flag() {
    assert_eq!(key_capabilities(false), KeyCapabilities::SignOnly);
    assert_eq!(key_capabilities(true), KeyCapabilities::SignAndExportable);
}
