//! Strict parsing of `0x`-prefixed hex fields: a fixed byte length is
//! demanded, and any other shape is rejected before the request reaches the
//! hash builder or a backend.

use vstd::prelude::*;
use vstd::string::StrSliceExecFns;

verus! {

/// The numeric value of one hex digit character (upper or lower case);
/// 16 marks a character that is no hex digit.
pub open spec fn digit_val(c: char) -> int {
    let n = c as int;
    if 48 <= n <= 57 {
        n - 48
    } else if 97 <= n <= 102 {
        n - 87
    } else if 65 <= n <= 70 {
        n - 55
    } else {
        16
    }
}

/// The digit pair at position `j` of `s` spells the byte `v`.
pub open spec fn hex_pair_ok(s: Seq<char>, j: int, v: u8) -> bool {
    &&& digit_val(s[2 * j]) < 16
    &&& digit_val(s[2 * j + 1]) < 16
    &&& v == 16 * digit_val(s[2 * j]) + digit_val(s[2 * j + 1])
}

/// `s` spells the bytes `b` in hex, two digits per byte, high nibble first.
pub open spec fn is_hex_encoding(s: Seq<char>, b: Seq<u8>) -> bool {
    &&& s.len() == 2 * b.len()
    &&& forall|i: int| #![trigger b[i]] 0 <= i < b.len() ==> hex_pair_ok(s, i, b[i])
}

/// `s` is `0x` followed by exactly `2 * nbytes` hex digits.
pub open spec fn valid_prefixed_hex(s: Seq<char>, nbytes: nat) -> bool {
    &&& s.len() == 2 + 2 * nbytes
    &&& s[0] as int == 48
    &&& s[1] as int == 120
    &&& forall|i: int| 2 <= i < s.len() ==> digit_val(#[trigger] s[i]) < 16
}

/// `s` is the `0x`-prefixed hex spelling of the bytes `b`.
pub open spec fn is_prefixed_hex(s: Seq<char>, b: Seq<u8>) -> bool {
    &&& s.len() >= 2
    &&& s[0] as int == 48
    &&& s[1] as int == 120
    &&& is_hex_encoding(s.skip(2), b)
}

proof fn lemma_hex_encoding_push(s: Seq<char>, prev: Seq<u8>, b: u8, i: int)
    requires
        0 <= i,
        prev.len() == i,
        2 * i + 1 < s.len(),
        forall|j: int| #![trigger prev[j]] 0 <= j < i ==> hex_pair_ok(s, j, prev[j]),
        hex_pair_ok(s, i, b),
    ensures
        forall|j: int| #![trigger prev.push(b)[j]]
            0 <= j < i + 1 ==> hex_pair_ok(s, j, prev.push(b)[j]),
{
    assert forall|j: int| #![trigger prev.push(b)[j]]
        0 <= j < i + 1 implies hex_pair_ok(s, j, prev.push(b)[j]) by {
        if j < i {
            assert(prev.push(b)[j] == prev[j]);
        } else {
            assert(prev.push(b)[j] == b);
        }
    }
}

/// The value of one hex digit byte, or 16 if the byte is no hex digit.
pub(crate) fn digit_of_byte(d: u8) -> (r: u8)
    ensures
        r <= 16,
        forall|c: char| c as int == d as int ==> r as int == digit_val(c),
{
    if 48 <= d && d <= 57 {
        d - 48
    } else if 97 <= d && d <= 102 {
        d - 87
    } else if 65 <= d && d <= 70 {
        d - 55
    } else {
        16
    }
}

/// Decodes a `0x`-prefixed hex string of exactly `nbytes` bytes.
/// Any other shape — wrong length, missing prefix, a stray character —
/// is rejected.
pub fn parse_hex_fixed(s: &str, nbytes: usize) -> (r: Option<Vec<u8>>)
    requires
        2 + 2 * nbytes <= usize::MAX,
    ensures
        r is Some <==> valid_prefixed_hex(s@, nbytes as nat),
        r matches Some(b) ==> b@.len() == nbytes && is_prefixed_hex(s@, b@),
{
    broadcast use vstd::string::is_ascii_spec_bytes;

    if !s.is_ascii() {
        proof {
            if valid_prefixed_hex(s@, nbytes as nat) {
                assert forall|i: int| 0 <= i < s@.len() implies '\0' <= #[trigger] s@[i]
                    <= '\u{7f}' by {
                    if i >= 2 {
                        assert(digit_val(s@[i]) < 16);
                    }
                }
                assert(vstd::utf8::is_ascii_chars(s@));
            }
        }
        return None;
    }
    let bytes = s.as_bytes_vec();
    proof {
        assert(bytes@.len() == s@.len());
        assert(forall|i: int| 0 <= i < s@.len() ==> bytes@[i] == #[trigger] s@[i] as u8);
        assert(forall|i: int| 0 <= i < s@.len() ==> #[trigger] s@[i] as int <= 127);
        assert(forall|i: int| 0 <= i < s@.len() ==> bytes@[i] as int == #[trigger] s@[i] as int);
    }
    if bytes.len() != 2 + 2 * nbytes {
        return None;
    }
    if bytes[0] != 48 || bytes[1] != 120 {
        return None;
    }
    let mut out: Vec<u8> = Vec::new();
    let mut i: usize = 0;
    while i < nbytes
        invariant
            i <= nbytes,
            bytes@.len() == s@.len() == 2 + 2 * nbytes,
            2 + 2 * nbytes <= usize::MAX,
            forall|j: int| 0 <= j < s@.len() ==> bytes@[j] as int == #[trigger] s@[j] as int,
            out@.len() == i,
            forall|j: int| #![trigger out@[j]] 0 <= j < i ==> hex_pair_ok(s@.skip(2), j, out@[j]),
        decreases nbytes - i,
    {
        let hi = digit_of_byte(bytes[2 + 2 * i]);
        let lo = digit_of_byte(bytes[2 + 2 * i + 1]);
        if hi == 16 || lo == 16 {
            proof {
                if hi == 16 {
                    assert(digit_val(s@[2 + 2 * i]) == 16);
                } else {
                    assert(digit_val(s@[2 + 2 * i + 1]) == 16);
                }
            }
            return None;
        }
        proof {
            assert(hi as int == digit_val(s@[2 + 2 * i]));
            assert(lo as int == digit_val(s@[2 + 2 * i + 1]));
            assert(s@.skip(2)[2 * i] == s@[2 + 2 * i]);
            assert(s@.skip(2)[2 * i + 1] == s@[2 + 2 * i + 1]);
            assert(hex_pair_ok(s@.skip(2), i as int, (16 * hi + lo) as u8));
        }
        let ghost prev = out@;
        out.push(16 * hi + lo);
        proof {
            lemma_hex_encoding_push(s@.skip(2), prev, (16 * hi + lo) as u8, i as int);
            assert(out@ == prev.push((16 * hi + lo) as u8));
        }
        i += 1;
    }
    proof {
        assert(valid_prefixed_hex(s@, nbytes as nat)) by {
            assert forall|j: int| 2 <= j < s@.len() implies digit_val(#[trigger] s@[j]) < 16 by {
                let k = (j - 2) / 2;
                assert(0 <= k < nbytes);
                assert(hex_pair_ok(s@.skip(2), k, out@[k]));
                if (j - 2) % 2 == 0 {
                    assert(s@.skip(2)[2 * k] == s@[j]);
                } else {
                    assert(s@.skip(2)[2 * k + 1] == s@[j]);
                }
            }
        }
    }
    Some(out)
}

} // verus!
