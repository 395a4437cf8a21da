//! The signature codec: a backend hands back 65 raw bytes `(r, s, v)` with
//! the legacy recovery byte 27 or 28; the codec rewrites `v` to 0 or 1 and
//! renders the whole signature as a `0x`-prefixed hex string. A recovery
//! byte below 27 is an integrity violation and is rejected.

use crate::errors::SignerError;
use crate::hexfmt::{encode_hex_prefixed, hex_prefixed};
use vstd::prelude::*;

verus! {

/// The raw signature with its recovery byte rewritten from 27/28 to 0/1.
pub open spec fn spec_normalized(raw: Seq<u8>) -> Seq<u8> {
    raw.update(64, (raw[64] - 27) as u8)
}

/// The wire form of a normalized signature.
pub open spec fn spec_sig_hex(raw: Seq<u8>) -> Seq<char> {
    hex_prefixed(spec_normalized(raw))
}

/// Normalizes a raw 65-byte signature and renders it for the wire.
/// A recovery byte of 27 becomes 0 and 28 becomes 1; anything below 27
/// fails with `InvalidRecoveryId`, and `r` and `s` pass through unchanged.
pub fn normalize_signature(raw: &Vec<u8>) -> (r: Result<String, SignerError>)
    requires
        raw@.len() == 65,
    ensures
        raw@[64] < 27 ==> r == Err::<String, SignerError>(
            SignerError::InvalidRecoveryId(raw@[64]),
        ),
        raw@[64] >= 27 ==> (r matches Ok(s) && s@ == spec_sig_hex(raw@)),
{
    let v = raw[64];
    if v < 27 {
        return Err(SignerError::InvalidRecoveryId(v));
    }
    let mut nrm: Vec<u8> = Vec::new();
    let mut i: usize = 0;
    while i < 64
        invariant
            i <= 64,
            raw@.len() == 65,
            nrm@ =~= raw@.take(i as int),
        decreases 64 - i,
    {
        nrm.push(raw[i]);
        proof {
            assert(nrm@ =~= raw@.take(i as int + 1));
        }
        i += 1;
    }
    nrm.push(v - 27);
    proof {
        assert(nrm@ =~= spec_normalized(raw@));
    }
    Ok(encode_hex_prefixed(&nrm))
}

} // verus!
