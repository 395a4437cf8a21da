use opsigner::errors::SignerError;
use opsigner::jsonrpc::JsonValue;
use opsigner::payload::parse_block_payload_args;

fn obj(entries: Vec<(&str, JsonValue)>) -> JsonValue {
    JsonValue::Obj(entries.into_iter().map(|(k, v)| (String::from(k), v)).collect())
}

fn valid_obj() -> Vec<(&'static str, JsonValue)> {
    vec![
        ("domain", JsonValue::Str(format!("0x{}", "aa".repeat(32)))),
        ("chainId", JsonValue::Str(String::from("10"))),
        ("payloadHash", JsonValue::Str(format!("0x{}", "bb".repeat(32)))),
        ("senderAddress", JsonValue::Str(format!("0x{}", "cc".repeat(20)))),
    ]
}

#[test]
fn well_formed_arguments_parse() {
    let args = parse_block_payload_args(&obj(valid_obj())).unwrap();
    assert_eq!(args.domain, vec![0xaa; 32]);
    let mut chain = vec![0u8; 32];
    chain[31] = 10;
    assert_eq!(args.chain_id, chain);
    assert_eq!(args.payload_hash, vec![0xbb; 32]);
    assert_eq!(args.sender_address, vec![0xcc; 20]);
}

#[test]
fn hex_chain_id_parses() {
    let mut entries = valid_obj();
    entries[1].1 = JsonValue::Str(String::from("0xa"));
    let args = parse_block_payload_args(&obj(entries)).unwrap();
    assert_eq!(args.chain_id[31], 10);
}

#[test]
fn wrong_domain_length_is_invalid() {
    let mut entries = valid_obj();
    entries[0].1 = JsonValue::Str(format!("0x{}", "aa".repeat(31)));
    let e = parse_block_payload_args(&obj(entries)).unwrap_err();
    assert!(matches!(e, SignerError::InvalidArgument(_)));
    assert_eq!(e.message(), "domain must be a 0x-hex string of 32 bytes");
}

#[test]
fn wrong_sender_length_is_invalid() {
    let mut entries = valid_obj();
    entries[3].1 = JsonValue::Str(format!("0x{}", "cc".repeat(32)));
    let e = parse_block_payload_args(&obj(entries)).unwrap_err();
    assert!(matches!(e, SignerError::InvalidArgument(_)));
}

#[test]
fn missing_field_is_invalid() {
    let mut entries = valid_obj();
    entries.remove(2);
    let e = parse_block_payload_args(&obj(entries)).unwrap_err();
    assert!(matches!(e, SignerError::InvalidArgument(_)));
    assert_eq!(e.message(), "payloadHash must be a 0x-hex string of 32 bytes");
}

#[test]
fn non_string_chain_id_is_invalid() {
    let mut entries = valid_obj();
    entries[1].1 = JsonValue::Uint(1);
    let e = parse_block_payload_args(&obj(entries)).unwrap_err();
    assert!(matches!(e, SignerError::InvalidArgument(_)));
}

#[test]
fn non_object_params_entry_is_invalid() {
    let e = parse_block_payload_args(&JsonValue::Arr(vec![])).unwrap_err();
    assert!(matches!(e, SignerError::InvalidArgument(_)));
    assert_eq!(e.message(), "params[0] must be a JSON object");
}

#[test]
fn first_entry_wins_on_repeated_keys() {
    let mut entries = valid_obj();
    entries.push(("domain", JsonValue::Str(format!("0x{}", "dd".repeat(32)))));
    let args = parse_block_payload_args(&obj(entries)).unwrap();
    assert_eq!(args.domain, vec![0xaa; 32]);
}
