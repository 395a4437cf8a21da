use opsigner::hexparse::parse_hex_fixed;
use opsigner::numeral::parse_chain_id;

fn be32(tail: &[u8]) -> Vec<u8> {
    let mut v = vec![0u8; 32];
    v[32 - tail.len()..].copy_from_slice(tail);
    v
}

#[test]
fn decimal_one() {
    assert_eq!(parse_chain_id("1").unwrap(), be32(&[1]));
}

#[test]
fn decimal_with_carries() {
    assert_eq!(parse_chain_id("256").unwrap(), be32(&[1, 0]));
    assert_eq!(parse_chain_id("65537").unwrap(), be32(&[1, 0, 1]));
    assert_eq!(parse_chain_id("007").unwrap(), be32(&[7]));
}

#[test]
fn hex_numerals() {
    assert_eq!(parse_chain_id("0x10").unwrap(), be32(&[0x10]));
    assert_eq!(parse_chain_id("0xDeadBeef").unwrap(), be32(&[0xde, 0xad, 0xbe, 0xef]));
    assert_eq!(parse_chain_id("0x0").unwrap(), be32(&[]));
}

#[test]
fn largest_value_fits() {
    // 2^256 - 1
    let max_dec =
        "115792089237316195423570985008687907853269984665640564039457584007913129639935";
    assert_eq!(parse_chain_id(max_dec).unwrap(), vec![0xff; 32]);
}

#[test]
fn overflow_is_rejected() {
    // 2^256
    let too_big =
        "115792089237316195423570985008687907853269984665640564039457584007913129639936";
    assert!(parse_chain_id(too_big).is_none());
    let hex_too_big = format!("0x1{}", "00".repeat(32));
    assert!(parse_chain_id(&hex_too_big).is_none());
}

#[test]
fn non_numerals_are_rejected() {
    assert!(parse_chain_id("").is_none());
    assert!(parse_chain_id("0x").is_none());
    assert!(parse_chain_id("12a").is_none());
    assert!(parse_chain_id("0xg1").is_none());
    assert!(parse_chain_id("-1").is_none());
    assert!(parse_chain_id("1 ").is_none());
    assert!(parse_chain_id("①").is_none());
}

#[test]
fn hex_fixed_round_trips() {
    let s = format!("0x{}", "11".repeat(32));
    assert_eq!(parse_hex_fixed(&s, 32).unwrap(), vec![0x11; 32]);
    assert_eq!(parse_hex_fixed("0xAbCd", 2).unwrap(), vec![0xab, 0xcd]);
}

#[test]
fn hex_fixed_rejects_bad_shapes() {
    assert!(parse_hex_fixed("0x11", 2).is_none()); // too short
    assert!(parse_hex_fixed(&format!("0x{}", "11".repeat(33)), 32).is_none()); // too long
    assert!(parse_hex_fixed("1111", 2).is_none()); // no prefix
    assert!(parse_hex_fixed("0x1g", 1).is_none()); // stray character
    assert!(parse_hex_fixed("0x①①", 1).is_none()); // not ascii
}
