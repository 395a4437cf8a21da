//! The domain-separated signing hash for block-payload attestations:
//! exactly `domain (32) ‖ chain_id (32, big-endian) ‖ payload_hash (32)`,
//! digested with keccak-256. The three-field, fixed-width, fixed-order
//! layout is a hard contract: the concatenation is proved injective in the
//! fields.

use crate::payload::BlockPayloadArgs;
use vstd::prelude::*;

verus! {

/// The keccak-256 digest of a byte string, named but not spelled out:
/// it is a fixed function of the input bytes alone.
pub uninterp spec fn keccak256_of(input: Seq<u8>) -> Seq<u8>;

/// Relies on alloy_primitives::keccak256: the digest is 32 bytes and
/// depends on the input bytes alone.
#[verifier::external_body]
fn keccak256_digest(input: &Vec<u8>) -> (r: Vec<u8>)
    ensures
        r@ == keccak256_of(input@),
        r@.len() == 32,
{
    alloy_primitives::keccak256(input.as_slice()).to_vec()
}

/// The 96-byte preimage the hash builder digests.
pub open spec fn spec_signing_input(args: BlockPayloadArgs) -> Seq<u8> {
    args.domain@ + args.chain_id@ + args.payload_hash@
}

/// The signing hash of an argument set.
pub open spec fn spec_signing_hash(args: BlockPayloadArgs) -> Seq<u8> {
    keccak256_of(spec_signing_input(args))
}

/// Appends the bytes of `src` to `dst`.
fn append_bytes(dst: &mut Vec<u8>, src: &Vec<u8>)
    ensures
        final(dst)@ == old(dst)@ + src@,
{
    let mut i: usize = 0;
    while i < src.len()
        invariant
            i <= src@.len(),
            dst@ =~= old(dst)@ + src@.take(i as int),
        decreases src@.len() - i,
    {
        dst.push(src[i]);
        proof {
            assert(dst@ =~= old(dst)@ + src@.take(i as int + 1));
        }
        i += 1;
    }
    proof {
        assert(src@.take(src@.len() as int) =~= src@);
    }
}

/// Computes the signing hash: the three fields are laid out in fixed
/// order and width into a 96-byte buffer and digested with keccak-256.
pub fn to_signing_hash(args: &BlockPayloadArgs) -> (r: Vec<u8>)
    requires
        args.wf(),
    ensures
        r@ == spec_signing_hash(*args),
        r@.len() == 32,
{
    let mut msg: Vec<u8> = Vec::new();
    append_bytes(&mut msg, &args.domain);
    append_bytes(&mut msg, &args.chain_id);
    append_bytes(&mut msg, &args.payload_hash);
    proof {
        assert(msg@ == spec_signing_input(*args));
    }
    keccak256_digest(&msg)
}

/// The hash builder is deterministic: argument sets with the same field
/// bytes have the same signing hash.
pub proof fn lemma_signing_hash_deterministic(a: BlockPayloadArgs, b: BlockPayloadArgs)
    requires
        a.domain@ == b.domain@,
        a.chain_id@ == b.chain_id@,
        a.payload_hash@ == b.payload_hash@,
    ensures
        spec_signing_hash(a) == spec_signing_hash(b),
{
}

/// The fixed-width concatenation is injective: two well-formed argument
/// sets with the same 96-byte preimage agree on every hashed field, so no
/// two distinct argument sets collide by concatenation alone.
pub proof fn lemma_signing_input_injective(a: BlockPayloadArgs, b: BlockPayloadArgs)
    requires
        a.wf(),
        b.wf(),
        spec_signing_input(a) == spec_signing_input(b),
    ensures
        a.domain@ == b.domain@,
        a.chain_id@ == b.chain_id@,
        a.payload_hash@ == b.payload_hash@,
{
    let sa = spec_signing_input(a);
    assert(a.domain@ =~= sa.subrange(0, 32));
    assert(a.chain_id@ =~= sa.subrange(32, 64));
    assert(a.payload_hash@ =~= sa.subrange(64, 96));
    let sb = spec_signing_input(b);
    assert(b.domain@ =~= sb.subrange(0, 32));
    assert(b.chain_id@ =~= sb.subrange(32, 64));
    assert(b.payload_hash@ =~= sb.subrange(64, 96));
}

} // verus!
