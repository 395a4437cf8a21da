//! The chain identifier arrives as a decimal or `0x`-hex numeric string and
//! must become exactly 32 big-endian bytes. The parser here multiplies a
//! 32-byte accumulator through digit by digit and proves that the bytes it
//! returns spell the numeral's value.

use crate::hexparse::{digit_of_byte, digit_val};
use vstd::arithmetic::power::{lemma_pow0, lemma_pow1, lemma_pow_adds, lemma_pow_positive, pow};
use vstd::prelude::*;
use vstd::string::StrSliceExecFns;

verus! {

/// The value of a byte string read as one big-endian unsigned integer.
pub open spec fn be_val(s: Seq<u8>) -> int
    decreases s.len(),
{
    if s.len() == 0 {
        0
    } else {
        be_val(s.drop_last()) * 256 + s.last()
    }
}

/// The value of a digit string read in the given base, most significant
/// digit first.
pub open spec fn numeral_val(s: Seq<char>, base: int) -> int
    decreases s.len(),
{
    if s.len() == 0 {
        0
    } else {
        numeral_val(s.drop_last(), base) * base + digit_val(s.last())
    }
}

/// Every character of `s` is a digit of the given base, and there is at
/// least one of them.
pub open spec fn valid_numeral(s: Seq<char>, base: int) -> bool {
    &&& s.len() > 0
    &&& forall|i: int| 0 <= i < s.len() ==> digit_val(#[trigger] s[i]) < base
}

/// The value a chain-id string denotes: hex after a `0x` prefix, decimal
/// otherwise; `None` when the string is no numeral at all.
pub open spec fn spec_chain_id_value(s: Seq<char>) -> Option<int> {
    if s.len() >= 2 && s[0] as int == 48 && s[1] as int == 120 {
        if valid_numeral(s.skip(2), 16) {
            Some(numeral_val(s.skip(2), 16))
        } else {
            None
        }
    } else {
        if valid_numeral(s, 10) {
            Some(numeral_val(s, 10))
        } else {
            None
        }
    }
}

/// The string denotes a value that fits in 256 bits.
pub open spec fn spec_chain_id_ok(s: Seq<char>) -> bool {
    match spec_chain_id_value(s) {
        Some(n) => n < pow(256, 32),
        None => false,
    }
}

pub proof fn lemma_be_val_nonneg(s: Seq<u8>)
    ensures
        be_val(s) >= 0,
    decreases s.len(),
{
    if s.len() > 0 {
        lemma_be_val_nonneg(s.drop_last());
    }
}

proof fn lemma_numeral_val_nonneg(s: Seq<char>, base: int)
    requires
        base >= 1,
    ensures
        numeral_val(s, base) >= 0,
    decreases s.len(),
{
    if s.len() > 0 {
        lemma_numeral_val_nonneg(s.drop_last(), base);
        assert(numeral_val(s.drop_last(), base) * base >= 0) by (nonlinear_arith)
            requires
                numeral_val(s.drop_last(), base) >= 0,
                base >= 1,
        ;
    }
}

/// A prefix of a numeral never denotes more than the whole numeral.
proof fn lemma_numeral_prefix_le(s: Seq<char>, base: int, i: int)
    requires
        base >= 2,
        0 <= i <= s.len(),
    ensures
        numeral_val(s.take(i), base) <= numeral_val(s, base),
    decreases s.len(),
{
    if i == s.len() {
        assert(s.take(i) =~= s);
    } else {
        let dl = s.drop_last();
        lemma_numeral_val_nonneg(dl, base);
        assert(numeral_val(dl, base) * base >= numeral_val(dl, base)) by (nonlinear_arith)
            requires
                numeral_val(dl, base) >= 0,
                base >= 2,
        ;
        assert(numeral_val(s, base) >= numeral_val(dl, base));
        assert(dl.take(i) =~= s.take(i));
        lemma_numeral_prefix_le(dl, base, i);
    }
}

/// Splitting off the most significant byte.
proof fn lemma_be_val_first(s: Seq<u8>)
    requires
        s.len() > 0,
    ensures
        be_val(s) == s[0] * pow(256, (s.len() - 1) as nat) + be_val(s.skip(1)),
    decreases s.len(),
{
    if s.len() == 1 {
        assert(be_val(s) == be_val(s.drop_last()) * 256 + s.last());
        assert(s.drop_last() =~= Seq::<u8>::empty());
        assert(be_val(Seq::<u8>::empty()) == 0);
        assert(s.skip(1) =~= Seq::<u8>::empty());
        lemma_pow0(256);
        assert(s.last() == s[0]);
    } else {
        let dl = s.drop_last();
        lemma_be_val_first(dl);
        assert(dl.skip(1) =~= s.skip(1).drop_last());
        assert(s.skip(1).last() == s.last());
        assert(be_val(s.skip(1)) == be_val(s.skip(1).drop_last()) * 256 + s.skip(1).last());
        let p = pow(256, (s.len() - 2) as nat);
        lemma_pow1(256);
        lemma_pow_adds(256, 1, (s.len() - 2) as nat);
        assert(pow(256, (s.len() - 1) as nat) == 256 * p);
        assert(be_val(dl) == dl[0] * p + be_val(dl.skip(1)));
        assert(dl[0] == s[0]);
        assert(be_val(s) == be_val(dl) * 256 + s.last());
        assert((s[0] * p + be_val(dl.skip(1))) * 256 == s[0] * (256 * p) + be_val(dl.skip(1))
            * 256) by (nonlinear_arith);
    }
}

/// A big-endian byte string never denotes `pow(256, len)` or more.
pub proof fn lemma_be_val_bound(s: Seq<u8>)
    ensures
        be_val(s) < pow(256, s.len()),
    decreases s.len(),
{
    if s.len() == 0 {
        lemma_pow0(256);
    } else {
        let dl = s.drop_last();
        lemma_be_val_bound(dl);
        lemma_be_val_nonneg(dl);
        let p = pow(256, dl.len());
        lemma_pow1(256);
        lemma_pow_adds(256, 1, dl.len());
        assert(pow(256, s.len()) == 256 * p);
        assert(be_val(s) == be_val(dl) * 256 + s.last());
        assert(be_val(dl) * 256 <= (p - 1) * 256) by (nonlinear_arith)
            requires
                be_val(dl) <= p - 1,
        ;
    }
}

/// The all-zero byte string denotes zero.
proof fn lemma_be_val_zero(s: Seq<u8>)
    requires
        forall|i: int| 0 <= i < s.len() ==> s[i] == 0,
    ensures
        be_val(s) == 0,
    decreases s.len(),
{
    if s.len() > 0 {
        lemma_be_val_zero(s.drop_last());
    }
}

/// Multiplies the 32-byte big-endian accumulator by a small base and adds a
/// digit, reporting overflow past 256 bits.
fn mul_small_add(v: &mut Vec<u8>, m: u8, a: u8) -> (overflow: bool)
    requires
        old(v)@.len() == 32,
        2 <= m <= 16,
        a < m,
    ensures
        final(v)@.len() == 32,
        !overflow ==> be_val(final(v)@) == be_val(old(v)@) * m + a,
        overflow ==> be_val(old(v)@) * m + a >= pow(256, 32),
{
    let ghost orig = old(v)@;
    let mut carry: u32 = a as u32;
    let mut k: usize = 32;
    proof {
        assert(v@.skip(32) =~= Seq::<u8>::empty());
        assert(orig.skip(32) =~= Seq::<u8>::empty());
        assert(be_val(Seq::<u8>::empty()) == 0);
        lemma_pow0(256);
        assert(v@.take(32) =~= orig.take(32));
    }
    while k > 0
        invariant
            k <= 32,
            v@.len() == 32,
            orig.len() == 32,
            2 <= m <= 16,
            carry < m,
            v@.take(k as int) =~= orig.take(k as int),
            be_val(v@.skip(k as int)) + carry * pow(256, (32 - k) as nat) == be_val(
                orig.skip(k as int),
            ) * m + a,
        decreases k,
    {
        let ghost vpre = v@;
        let ghost kpre = k as int;
        k -= 1;
        proof {
            let ki = k as int;
            assert(vpre[ki] == orig[ki]) by {
                assert(vpre.take(kpre)[ki] == vpre[ki]);
                assert(orig.take(kpre)[ki] == orig[ki]);
            }
            assert(vpre[ki] * m <= 255 * 16) by (nonlinear_arith)
                requires
                    0 <= vpre[ki] <= 255,
                    0 <= m <= 16,
            ;
        }
        let t: u32 = (v[k] as u32) * (m as u32) + carry;
        let nb: u8 = (t % 256) as u8;
        let nc: u32 = t / 256;
        v[k] = nb;
        proof {
            let ki = k as int;
            let p = pow(256, (32 - kpre) as nat);
            lemma_pow_positive(256, (32 - kpre) as nat);
            lemma_pow1(256);
            lemma_pow_adds(256, 1, (32 - kpre) as nat);
            assert(pow(256, (32 - ki) as nat) == 256 * p);
            assert(t == orig[ki] * m + carry);
            assert(orig[ki] * m <= 255 * m) by (nonlinear_arith)
                requires
                    0 <= orig[ki] <= 255,
                    m >= 0,
            ;
            assert(t <= 255 * m + (m - 1));
            assert(t < 256 * m);
            assert(nc < m) by (nonlinear_arith)
                requires
                    nc == t / 256,
                    t < 256 * m,
                    t >= 0,
                    m >= 2,
            ;
            assert(v@.take(ki) =~= orig.take(ki));
            assert(v@.skip(kpre) =~= vpre.skip(kpre));
            let snew = v@.skip(ki);
            lemma_be_val_first(snew);
            assert(snew[0] == nb);
            assert(snew.skip(1) =~= v@.skip(kpre));
            assert(be_val(snew) == nb * p + be_val(vpre.skip(kpre)));
            let sorig = orig.skip(ki);
            lemma_be_val_first(sorig);
            assert(sorig[0] == orig[ki]);
            assert(sorig.skip(1) =~= orig.skip(kpre));
            assert(be_val(sorig) == orig[ki] * p + be_val(orig.skip(kpre)));
            assert(nb + 256 * nc == t);
            assert(be_val(vpre.skip(kpre)) == be_val(orig.skip(kpre)) * m + a - carry * p);
            assert(nb * p + nc * (256 * p) == (nb + 256 * nc) * p) by (nonlinear_arith);
            assert((nb + 256 * nc) * p == t * p);
            assert(t * p == (orig[ki] * m + carry) * p);
            assert((orig[ki] * m + carry) * p == orig[ki] * m * p + carry * p)
                by (nonlinear_arith);
            assert(orig[ki] * m * p == orig[ki] * p * m) by (nonlinear_arith);
            assert(be_val(snew) + nc * (256 * p) == orig[ki] * p * m + be_val(orig.skip(kpre)) * m
                + a);
            assert(orig[ki] * p * m + be_val(orig.skip(kpre)) * m == (orig[ki] * p + be_val(
                orig.skip(kpre),
            )) * m) by (nonlinear_arith);
            assert(be_val(snew) + nc * pow(256, (32 - ki) as nat) == be_val(sorig) * m + a);
        }
        carry = nc;
    }
    proof {
        assert(v@.skip(0) =~= v@);
        assert(orig.skip(0) =~= orig);
        lemma_pow_positive(256, 32);
        lemma_be_val_nonneg(v@);
        if carry > 0 {
            assert(carry * pow(256, 32) >= pow(256, 32)) by (nonlinear_arith)
                requires
                    carry >= 1,
                    pow(256, 32) > 0,
            ;
        }
    }
    carry > 0
}

/// Parses a chain-id numeral — decimal, or hex after a `0x` prefix — into
/// exactly 32 big-endian bytes. A string that is no numeral, or whose value
/// needs more than 256 bits, is rejected.
pub fn parse_chain_id(s: &str) -> (r: Option<Vec<u8>>)
    ensures
        r is Some <==> spec_chain_id_ok(s@),
        r matches Some(b) ==> b@.len() == 32 && spec_chain_id_value(s@) == Some(be_val(b@)),
{
    broadcast use vstd::string::is_ascii_spec_bytes;

    if !s.is_ascii() {
        proof {
            if spec_chain_id_ok(s@) {
                assert forall|i: int| 0 <= i < s@.len() implies '\0' <= #[trigger] s@[i]
                    <= '\u{7f}' by {
                    if s@.len() >= 2 && s@[0] as int == 48 && s@[1] as int == 120 {
                        if i >= 2 {
                            assert(digit_val(s@.skip(2)[i - 2]) < 16);
                            assert(s@.skip(2)[i - 2] == s@[i]);
                        }
                    } else {
                        assert(digit_val(s@[i]) < 10);
                    }
                }
                assert(vstd::utf8::is_ascii_chars(s@));
            }
        }
        return None;
    }
    let bytes = s.as_bytes_vec();
    proof {
        assert(bytes@.len() == s@.len());
        assert(forall|i: int| 0 <= i < s@.len() ==> bytes@[i] == #[trigger] s@[i] as u8);
        assert(forall|i: int| 0 <= i < s@.len() ==> #[trigger] s@[i] as int <= 127);
        assert(forall|i: int| 0 <= i < s@.len() ==> bytes@[i] as int == #[trigger] s@[i] as int);
    }
    let n = bytes.len();
    let hex = n >= 2 && bytes[0] == 48 && bytes[1] == 120;
    let start: usize = if hex {
        2
    } else {
        0
    };
    let base: u8 = if hex {
        16
    } else {
        10
    };
    let ghost digits = s@.skip(start as int);
    proof {
        if hex {
            assert(s@.len() >= 2 && s@[0] as int == 48 && s@[1] as int == 120);
        } else {
            assert(digits =~= s@);
            if s@.len() >= 2 && s@[0] as int == 48 && s@[1] as int == 120 {
                assert(bytes@[0] as int == 48 && bytes@[1] as int == 120);
                assert(false);
            }
        }
        assert(spec_chain_id_value(s@) == (if valid_numeral(digits, base as int) {
            Some(numeral_val(digits, base as int))
        } else {
            Option::<int>::None
        }));
    }
    if start >= n {
        // An empty digit string is no numeral.
        proof {
            assert(digits.len() == 0);
        }
        return None;
    }
    let mut v: Vec<u8> = Vec::new();
    let mut z: usize = 0;
    while z < 32
        invariant
            v@.len() == z,
            z <= 32,
            forall|i: int| 0 <= i < z ==> v@[i] == 0,
        decreases 32 - z,
    {
        v.push(0);
        z += 1;
    }
    proof {
        lemma_be_val_zero(v@);
        assert(digits.take(0) =~= Seq::<char>::empty());
    }
    let mut j: usize = start;
    while j < n
        invariant
            start <= j <= n,
            n == bytes@.len() == s@.len(),
            start < n,
            2 <= base <= 16,
            digits == s@.skip(start as int),
            digits.len() == n - start,
            spec_chain_id_value(s@) == (if valid_numeral(digits, base as int) {
                Some(numeral_val(digits, base as int))
            } else {
                Option::<int>::None
            }),
            forall|i: int| 0 <= i < s@.len() ==> bytes@[i] as int == #[trigger] s@[i] as int,
            v@.len() == 32,
            be_val(v@) == numeral_val(digits.take(j - start), base as int),
            forall|i: int| 0 <= i < j - start ==> digit_val(#[trigger] digits[i]) < base,
        decreases n - j,
    {
        let d = digit_of_byte(bytes[j]);
        proof {
            assert(digits[j - start] == s@[j as int]);
            assert(d as int == digit_val(s@[j as int]));
        }
        if d >= base {
            proof {
                if spec_chain_id_ok(s@) {
                    assert(valid_numeral(digits, base as int));
                    assert(digit_val(digits[j - start]) < base);
                }
            }
            return None;
        }
        let ghost before = v@;
        let overflow = mul_small_add(&mut v, base, d);
        proof {
            let t = j - start;
            assert(digits.take(t + 1).drop_last() =~= digits.take(t));
            assert(digits.take(t + 1).last() == digits[t]);
            assert(numeral_val(digits.take(t + 1), base as int) == numeral_val(
                digits.take(t),
                base as int,
            ) * base + digit_val(digits[t]));
        }
        if overflow {
            proof {
                if spec_chain_id_ok(s@) {
                    let t = j - start;
                    assert(numeral_val(digits.take(t + 1), base as int) >= pow(256, 32));
                    lemma_numeral_prefix_le(digits, base as int, t + 1);
                    assert(numeral_val(digits, base as int) >= pow(256, 32));
                    assert(valid_numeral(digits, base as int));
                    assert(false);
                }
            }
            return None;
        }
        j += 1;
    }
    proof {
        assert(digits.take(n - start) =~= digits);
        assert(valid_numeral(digits, base as int));
        lemma_be_val_bound(v@);
        assert(spec_chain_id_value(s@) == Some(be_val(v@)));
    }
    Some(v)
}

} // verus!
