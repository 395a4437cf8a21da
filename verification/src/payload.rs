//! The block-payload attestation arguments: their shape on the wire, their
//! strict validation, and the parsed form the hash builder consumes.

use crate::errors::SignerError;
use crate::hexparse::{is_prefixed_hex, parse_hex_fixed, valid_prefixed_hex};
use crate::jsonrpc::{lookup_field, obj_lookup, JsonValue};
use crate::numeral::{be_val, parse_chain_id, spec_chain_id_ok, spec_chain_id_value};
use vstd::prelude::*;
use vstd::string::StringExecFns;

verus! {

/// The arguments of a block-payload signing request, already validated:
/// a 32-byte domain tag, the chain id as 32 big-endian bytes, a 32-byte
/// payload hash, and a 20-byte sender identity.
#[derive(Debug)]
pub struct BlockPayloadArgs {
    pub domain: Vec<u8>,
    pub chain_id: Vec<u8>,
    pub payload_hash: Vec<u8>,
    pub sender_address: Vec<u8>,
}

impl BlockPayloadArgs {
    /// The fixed byte widths every parsed argument set carries.
    pub open spec fn wf(&self) -> bool {
        &&& self.domain@.len() == 32
        &&& self.chain_id@.len() == 32
        &&& self.payload_hash@.len() == 32
        &&& self.sender_address@.len() == 20
    }
}

/// The wire shape is acceptable: an object whose `domain`, `payloadHash`
/// and `senderAddress` fields are `0x`-hex strings of exactly 32, 32 and
/// 20 bytes, and whose `chainId` field is a numeral below `2^256`.
pub open spec fn spec_args_valid(v: JsonValue) -> bool {
    match v {
        JsonValue::Obj(entries) => {
            &&& (obj_lookup(entries@, "domain"@) matches Some(JsonValue::Str(d))
                && valid_prefixed_hex(d@, 32))
            &&& (obj_lookup(entries@, "chainId"@) matches Some(JsonValue::Str(c))
                && spec_chain_id_ok(c@))
            &&& (obj_lookup(entries@, "payloadHash"@) matches Some(JsonValue::Str(p))
                && valid_prefixed_hex(p@, 32))
            &&& (obj_lookup(entries@, "senderAddress"@) matches Some(JsonValue::Str(a))
                && valid_prefixed_hex(a@, 20))
        },
        _ => false,
    }
}

/// The parsed bytes spell exactly the wire fields of `v`.
pub open spec fn spec_args_match(v: JsonValue, args: BlockPayloadArgs) -> bool {
    match v {
        JsonValue::Obj(entries) => {
            &&& (obj_lookup(entries@, "domain"@) matches Some(JsonValue::Str(d))
                && is_prefixed_hex(d@, args.domain@))
            &&& (obj_lookup(entries@, "chainId"@) matches Some(JsonValue::Str(c))
                && spec_chain_id_value(c@) == Some(be_val(args.chain_id@)))
            &&& (obj_lookup(entries@, "payloadHash"@) matches Some(JsonValue::Str(p))
                && is_prefixed_hex(p@, args.payload_hash@))
            &&& (obj_lookup(entries@, "senderAddress"@) matches Some(JsonValue::Str(a))
                && is_prefixed_hex(a@, args.sender_address@))
        },
        _ => false,
    }
}

/// Validates and parses one `params` entry into `BlockPayloadArgs`.
/// Exactly the shapes `spec_args_valid` admits are accepted; everything
/// else fails with `InvalidArgument` before any backend is involved.
pub fn parse_block_payload_args(v: &JsonValue) -> (r: Result<BlockPayloadArgs, SignerError>)
    ensures
        r is Ok <==> spec_args_valid(*v),
        r matches Ok(args) ==> args.wf() && spec_args_match(*v, args),
        r matches Err(e) ==> e is InvalidArgument,
{
    match v {
        JsonValue::Obj(entries) => {
            let domain = match lookup_field(entries, &String::from_str("domain")) {
                Some(JsonValue::Str(d)) => match parse_hex_fixed(d.as_str(), 32) {
                    Some(b) => b,
                    None => {
                        return Err(
                            SignerError::InvalidArgument(
                                String::from_str("domain must be a 0x-hex string of 32 bytes"),
                            ),
                        );
                    },
                },
                _ => {
                    return Err(
                        SignerError::InvalidArgument(
                            String::from_str("domain must be a 0x-hex string of 32 bytes"),
                        ),
                    );
                },
            };
            let chain_id = match lookup_field(entries, &String::from_str("chainId")) {
                Some(JsonValue::Str(c)) => match parse_chain_id(c.as_str()) {
                    Some(b) => b,
                    None => {
                        return Err(
                            SignerError::InvalidArgument(
                                String::from_str("chainId must be a numeral below 2^256"),
                            ),
                        );
                    },
                },
                _ => {
                    return Err(
                        SignerError::InvalidArgument(
                            String::from_str("chainId must be a numeral below 2^256"),
                        ),
                    );
                },
            };
            let payload_hash = match lookup_field(entries, &String::from_str("payloadHash")) {
                Some(JsonValue::Str(p)) => match parse_hex_fixed(p.as_str(), 32) {
                    Some(b) => b,
                    None => {
                        return Err(
                            SignerError::InvalidArgument(
                                String::from_str("payloadHash must be a 0x-hex string of 32 bytes"),
                            ),
                        );
                    },
                },
                _ => {
                    return Err(
                        SignerError::InvalidArgument(
                            String::from_str("payloadHash must be a 0x-hex string of 32 bytes"),
                        ),
                    );
                },
            };
            let sender_address = match lookup_field(entries, &String::from_str("senderAddress")) {
                Some(JsonValue::Str(a)) => match parse_hex_fixed(a.as_str(), 20) {
                    Some(b) => b,
                    None => {
                        return Err(
                            SignerError::InvalidArgument(
                                String::from_str(
                                    "senderAddress must be a 0x-hex string of 20 bytes",
                                ),
                            ),
                        );
                    },
                },
                _ => {
                    return Err(
                        SignerError::InvalidArgument(
                            String::from_str("senderAddress must be a 0x-hex string of 20 bytes"),
                        ),
                    );
                },
            };
            Ok(BlockPayloadArgs { domain, chain_id, payload_hash, sender_address })
        },
        _ => Err(
            SignerError::InvalidArgument(String::from_str("params[0] must be a JSON object")),
        ),
    }
}

} // verus!
