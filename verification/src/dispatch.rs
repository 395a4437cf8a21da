//! The method dispatcher: exactly three JSON-RPC methods are recognized.
//! `health_status` answers without touching the signer cache or any
//! backend; the two signing methods validate their parameters before any
//! resolution, so a bad request never costs a backend round trip.

use crate::adapter::{KeyId, SignerAdapter, TxError};
use crate::cache::SignerCache;
use crate::errors::SignerError;
use crate::hexfmt::{encode_hex_prefixed, hex_prefixed};
use crate::jsonrpc::{AddressResponse, JsonRpcReply, JsonRpcRequest, JsonRpcResult, JsonValue};
use crate::payload::{parse_block_payload_args, spec_args_valid};
use crate::hash::to_signing_hash;
use crate::sigcodec::{normalize_signature, spec_sig_hex};
use vstd::prelude::*;
use vstd::string::StringExecFns;

verus! {

/// The three recognized JSON-RPC method names.
pub open spec fn is_supported_method(m: Seq<char>) -> bool {
    ||| m == "eth_signTransaction"@
    ||| m == "health_status"@
    ||| m == "opsigner_signBlockPayload"@
}

/// `params` is absent or an empty array.
pub open spec fn params_missing(p: Option<Vec<JsonValue>>) -> bool {
    match p {
        Option::None => true,
        Option::Some(v) => v@.len() == 0,
    }
}

/// The first positional parameter.
pub open spec fn first_param(p: Option<Vec<JsonValue>>) -> JsonValue {
    match p {
        Option::Some(v) => v@[0],
        Option::None => JsonValue::Null,
    }
}

/// A successful block-payload reply: the request's `id` and version come
/// back, and the result is the hex form of some normalized 65-byte raw
/// signature whose recovery byte respected the 27/28 convention.
pub open spec fn block_reply_shape(payload: JsonRpcRequest, rep: JsonRpcReply) -> bool {
    &&& rep.id == payload.id
    &&& rep.jsonrpc@ == payload.jsonrpc@
    &&& exists|raw: Seq<u8>|
        #![trigger spec_sig_hex(raw)]
        raw.len() == 65 && raw[64] >= 27 && (rep.result matches JsonRpcResult::Result(
            JsonValue::Str(sig),
        ) && sig@ == spec_sig_hex(raw))
}

/// A successful transaction reply: the request's `id` and version come
/// back, and the result is the `0x`-hex form of the encoded envelope the
/// transaction builder produced.
pub open spec fn tx_reply_shape(payload: JsonRpcRequest, rep: JsonRpcReply) -> bool {
    &&& rep.id == payload.id
    &&& rep.jsonrpc@ == payload.jsonrpc@
    &&& exists|enc: Seq<u8>|
        #![trigger hex_prefixed(enc)]
        rep.result matches JsonRpcResult::Result(JsonValue::Str(h)) && h@ == hex_prefixed(enc)
}

/// Answers `health_status` with the service's version string. No cache,
/// no backend, no failure.
pub fn handle_health_status(payload: JsonRpcRequest, version: &String) -> (r: JsonRpcReply)
    ensures
        r.id == payload.id,
        r.jsonrpc@ == payload.jsonrpc@,
        r.result matches JsonRpcResult::Result(JsonValue::Str(s)) && s@ == version@,
{
    JsonRpcReply {
        id: payload.id,
        jsonrpc: payload.jsonrpc,
        result: JsonRpcResult::Result(JsonValue::Str(version.clone())),
    }
}

/// Serves `opsigner_signBlockPayload`: validate, hash, resolve, sign,
/// normalize. Empty or invalid parameters fail before the cache or any
/// backend is involved.
pub fn handle_eth_sign_block<S: SignerAdapter>(
    payload: JsonRpcRequest,
    cache: &mut SignerCache<S>,
    cfg: &S::Config,
    key: &KeyId,
) -> (r: Result<JsonRpcReply, SignerError>)
    requires
        old(cache).wf(),
    ensures
        final(cache).wf(),
        params_missing(payload.params) ==> *final(cache) == *old(cache) && (r matches Err(e) && (
        e matches SignerError::InvalidArgument(m) && m@ == "params is empty"@)),
        (!params_missing(payload.params) && !spec_args_valid(first_param(payload.params)))
            ==> *final(cache) == *old(cache) && (r matches Err(e) && e is InvalidArgument),
        r matches Ok(rep) ==> !params_missing(payload.params) && spec_args_valid(
            first_param(payload.params),
        ) && block_reply_shape(payload, rep),
        (!params_missing(payload.params) && spec_args_valid(first_param(payload.params))) ==> (
        r is Ok || (r matches Err(e) && (e is BackendUnavailable || e is InvalidRecoveryId))),
        r matches Err(e) ==> !(e is UnsupportedMethod),
{
    let has_params = match &payload.params {
        Some(ps) => ps.len() > 0,
        None => false,
    };
    if !has_params {
        return Err(SignerError::InvalidArgument(String::from_str("params is empty")));
    }
    let ps = match payload.params {
        Some(ps) => ps,
        None => Vec::new(),
    };
    let args = match parse_block_payload_args(&ps[0]) {
        Ok(a) => a,
        Err(e) => {
            return Err(e);
        },
    };
    let hash = to_signing_hash(&args);
    let signer = match cache.resolve(cfg, key) {
        Ok(s) => s,
        Err(m) => {
            return Err(SignerError::BackendUnavailable(m));
        },
    };
    let raw = match signer.sign_hash(&hash) {
        Ok(r) => r,
        Err(m) => {
            return Err(SignerError::BackendUnavailable(m));
        },
    };
    let sig_hex = match normalize_signature(&raw) {
        Ok(s) => s,
        Err(e) => {
            return Err(e);
        },
    };
    proof {
        assert(raw@.len() == 65 && raw@[64] >= 27 && sig_hex@ == spec_sig_hex(raw@));
    }
    Ok(
        JsonRpcReply {
            id: payload.id,
            jsonrpc: payload.jsonrpc,
            result: JsonRpcResult::Result(JsonValue::Str(sig_hex)),
        },
    )
}

/// Classifies a transaction-signing failure into the error taxonomy: a
/// request object that is no transaction is the caller's fault and keeps
/// its cause behind an `invalid transaction: ` prefix; anything else is
/// the backend's failure.
pub fn tx_error_to_signer_error(e: TxError) -> (r: SignerError)
    ensures
        e matches TxError::InvalidTransaction(m) ==> (r matches SignerError::InvalidArgument(s)
            && s@ == "invalid transaction: "@ + m@),
        e matches TxError::Backend(m) ==> r == SignerError::BackendUnavailable(m),
{
    match e {
        TxError::InvalidTransaction(m) => {
            let mut s = String::from_str("invalid transaction: ");
            s.append(m.as_str());
            SignerError::InvalidArgument(s)
        },
        TxError::Backend(m) => SignerError::BackendUnavailable(m),
    }
}

/// Serves `eth_signTransaction`: validate the parameters, resolve the
/// signer, hand the transaction object to the builder behind the adapter,
/// and render the encoded envelope in hex.
pub fn handle_eth_sign_transaction<S: SignerAdapter>(
    payload: JsonRpcRequest,
    cache: &mut SignerCache<S>,
    cfg: &S::Config,
    key: &KeyId,
) -> (r: Result<JsonRpcReply, SignerError>)
    requires
        old(cache).wf(),
    ensures
        final(cache).wf(),
        params_missing(payload.params) ==> *final(cache) == *old(cache) && (r matches Err(e) && (
        e matches SignerError::InvalidArgument(m) && m@ == "params is empty"@)),
        r matches Ok(rep) ==> !params_missing(payload.params) && tx_reply_shape(payload, rep),
        (!params_missing(payload.params) && r is Err) ==> (r matches Err(e) && (
        e is BackendUnavailable || (e matches SignerError::InvalidArgument(m) && exists|t: Seq<char>|
            m@ == #[trigger] ("invalid transaction: "@ + t)))),
        r matches Err(e) ==> e is InvalidArgument || e is BackendUnavailable,
{
    let has_params = match &payload.params {
        Some(ps) => ps.len() > 0,
        None => false,
    };
    if !has_params {
        return Err(SignerError::InvalidArgument(String::from_str("params is empty")));
    }
    let ps = match payload.params {
        Some(ps) => ps,
        None => Vec::new(),
    };
    let signer = match cache.resolve(cfg, key) {
        Ok(s) => s,
        Err(m) => {
            return Err(SignerError::BackendUnavailable(m));
        },
    };
    let enc = match signer.sign_transaction(&ps[0]) {
        Ok(b) => b,
        Err(te) => {
            let ghost gte = te;
            let se = tx_error_to_signer_error(te);
            proof {
                match gte {
                    TxError::InvalidTransaction(m) => {
                        assert(se matches SignerError::InvalidArgument(s) && s@
                            == "invalid transaction: "@ + m@);
                    },
                    TxError::Backend(_) => {
                        assert(se is BackendUnavailable);
                    },
                }
            }
            return Err(se);
        },
    };
    let rlp_hex = encode_hex_prefixed(&enc);
    proof {
        assert(rlp_hex@ == hex_prefixed(enc@));
    }
    Ok(
        JsonRpcReply {
            id: payload.id,
            jsonrpc: payload.jsonrpc,
            result: JsonRpcResult::Result(JsonValue::Str(rlp_hex)),
        },
    )
}

/// Dispatches one JSON-RPC request by method name. `health_status` leaves
/// the cache untouched; an unrecognized method fails naming the three
/// supported ones; the signing methods fail fast on empty parameters,
/// before the cache or a backend is reached.
pub fn handle_eth_sign_jsonrpc<S: SignerAdapter>(
    payload: JsonRpcRequest,
    cache: &mut SignerCache<S>,
    cfg: &S::Config,
    key: &KeyId,
    version: &String,
) -> (r: Result<JsonRpcReply, SignerError>)
    requires
        old(cache).wf(),
    ensures
        final(cache).wf(),
        payload.method@ == "health_status"@ ==> *final(cache) == *old(cache) && (r matches Ok(
            rep,
        ) && rep.id == payload.id && rep.jsonrpc@ == payload.jsonrpc@ && (
        rep.result matches JsonRpcResult::Result(JsonValue::Str(s)) && s@ == version@)),
        !is_supported_method(payload.method@) ==> *final(cache) == *old(cache) && (
        r matches Err(e) && (e matches SignerError::UnsupportedMethod(m) && m@
            == payload.method@)),
        (is_supported_method(payload.method@) && payload.method@ != "health_status"@
            && params_missing(payload.params)) ==> *final(cache) == *old(cache) && (
        r matches Err(e) && (e matches SignerError::InvalidArgument(m) && m@
            == "params is empty"@)),
        (payload.method@ == "opsigner_signBlockPayload"@ && r is Ok) ==> (r matches Ok(rep)
            && block_reply_shape(payload, rep) && spec_args_valid(first_param(payload.params))),
        (payload.method@ == "eth_signTransaction"@ && r is Ok) ==> (r matches Ok(rep)
            && tx_reply_shape(payload, rep)),
        (payload.method@ == "opsigner_signBlockPayload"@ && !params_missing(payload.params)
            && spec_args_valid(first_param(payload.params))) ==> (r is Ok || (r matches Err(e) && (
        e is BackendUnavailable || e is InvalidRecoveryId))),
        (payload.method@ == "eth_signTransaction"@ && !params_missing(payload.params) && r is Err)
            ==> (r matches Err(e) && (e is BackendUnavailable || (
        e matches SignerError::InvalidArgument(m) && exists|t: Seq<char>|
            m@ == #[trigger] ("invalid transaction: "@ + t)))),
{
    proof {
        reveal_strlit("eth_signTransaction");
        reveal_strlit("health_status");
        reveal_strlit("opsigner_signBlockPayload");
        assert("eth_signTransaction"@.len() == 19);
        assert("health_status"@.len() == 13);
        assert("opsigner_signBlockPayload"@.len() == 25);
        assert("eth_signTransaction"@ != "health_status"@);
        assert("eth_signTransaction"@ != "opsigner_signBlockPayload"@);
        assert("health_status"@ != "opsigner_signBlockPayload"@);
    }
    let m_tx = String::from_str("eth_signTransaction");
    let m_health = String::from_str("health_status");
    let m_block = String::from_str("opsigner_signBlockPayload");
    if payload.method.eq(&m_tx) {
        handle_eth_sign_transaction(payload, cache, cfg, key)
    } else if payload.method.eq(&m_health) {
        Ok(handle_health_status(payload, version))
    } else if payload.method.eq(&m_block) {
        handle_eth_sign_block(payload, cache, cfg, key)
    } else {
        Err(SignerError::UnsupportedMethod(payload.method))
    }
}

/// Wraps an error into a JSON-RPC error reply carrying its message.
pub fn error_reply(id: JsonValue, jsonrpc: String, e: &SignerError) -> (r: JsonRpcReply)
    ensures
        r.id == id,
        r.jsonrpc@ == jsonrpc@,
        r.result matches JsonRpcResult::Error(m) && m@ == e.spec_message(),
{
    JsonRpcReply { id, jsonrpc, result: JsonRpcResult::Error(e.message()) }
}

/// The address endpoint's body: the key's 20-byte identity in `0x`-hex.
pub fn address_response<S: SignerAdapter>(signer: &S) -> (r: AddressResponse)
    ensures
        exists|b: Seq<u8>|
            #![trigger hex_prefixed(b)]
            b.len() == 20 && r.address@ == hex_prefixed(b),
{
    let bytes = signer.address_bytes();
    let address = encode_hex_prefixed(&bytes);
    proof {
        assert(bytes@.len() == 20 && address@ == hex_prefixed(bytes@));
    }
    AddressResponse { address }
}

} // verus!
