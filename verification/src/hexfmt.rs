//! Lower-case hex rendering of byte strings, used for the wire form of
//! signatures and encoded transactions.

use vstd::prelude::*;
use vstd::string::StringExecFns;

verus! {

/// The lower-case hex character for one digit value.
pub open spec fn hex_char_of(n: int) -> char {
    if n == 0 {
        '0'
    } else if n == 1 {
        '1'
    } else if n == 2 {
        '2'
    } else if n == 3 {
        '3'
    } else if n == 4 {
        '4'
    } else if n == 5 {
        '5'
    } else if n == 6 {
        '6'
    } else if n == 7 {
        '7'
    } else if n == 8 {
        '8'
    } else if n == 9 {
        '9'
    } else if n == 10 {
        'a'
    } else if n == 11 {
        'b'
    } else if n == 12 {
        'c'
    } else if n == 13 {
        'd'
    } else if n == 14 {
        'e'
    } else {
        'f'
    }
}

/// Hex encoding of a byte string: two lower-case digits per byte, high
/// nibble first.
pub open spec fn hex_of(bytes: Seq<u8>) -> Seq<char> {
    Seq::new(
        2 * bytes.len(),
        |i: int|
            if i % 2 == 0 {
                hex_char_of(bytes[i / 2] as int / 16)
            } else {
                hex_char_of(bytes[i / 2] as int % 16)
            },
    )
}

/// The `0x`-prefixed hex rendering of a byte string.
pub open spec fn hex_prefixed(bytes: Seq<u8>) -> Seq<char> {
    seq!['0', 'x'] + hex_of(bytes)
}

fn hex_char_str(n: u8) -> (r: &'static str)
    requires
        n < 16,
    ensures
        r@.len() == 1,
        r@[0] == hex_char_of(n as int),
{
    proof {
        reveal_strlit("0");
        reveal_strlit("1");
        reveal_strlit("2");
        reveal_strlit("3");
        reveal_strlit("4");
        reveal_strlit("5");
        reveal_strlit("6");
        reveal_strlit("7");
        reveal_strlit("8");
        reveal_strlit("9");
        reveal_strlit("a");
        reveal_strlit("b");
        reveal_strlit("c");
        reveal_strlit("d");
        reveal_strlit("e");
        reveal_strlit("f");
    }
    match n {
        0 => "0",
        1 => "1",
        2 => "2",
        3 => "3",
        4 => "4",
        5 => "5",
        6 => "6",
        7 => "7",
        8 => "8",
        9 => "9",
        10 => "a",
        11 => "b",
        12 => "c",
        13 => "d",
        14 => "e",
        _ => "f",
    }
}

/// The decimal spelling of a byte, without leading zeros.
pub open spec fn dec_of_u8(n: u8) -> Seq<char> {
    let v = n as int;
    if v < 10 {
        seq![hex_char_of(v)]
    } else if v < 100 {
        seq![hex_char_of(v / 10), hex_char_of(v % 10)]
    } else {
        seq![hex_char_of(v / 100), hex_char_of((v / 10) % 10), hex_char_of(v % 10)]
    }
}

/// Renders a byte in decimal.
pub fn dec_str_u8(n: u8) -> (r: String)
    ensures
        r@ == dec_of_u8(n),
{
    let mut s = String::new();
    if n >= 100 {
        s.append(hex_char_str(n / 100));
    }
    if n >= 10 {
        s.append(hex_char_str((n / 10) % 10));
    }
    s.append(hex_char_str(n % 10));
    proof {
        assert(s@ =~= dec_of_u8(n));
    }
    s
}

/// Renders a byte string as a `0x`-prefixed lower-case hex string.
pub fn encode_hex_prefixed(bytes: &Vec<u8>) -> (r: String)
    ensures
        r@ == hex_prefixed(bytes@),
{
    let mut s = String::from_str("0x");
    proof {
        reveal_strlit("0x");
        assert(s@ =~= seq!['0', 'x']);
    }
    let mut i: usize = 0;
    while i < bytes.len()
        invariant
            i <= bytes@.len(),
            s@ =~= seq!['0', 'x'] + hex_of(bytes@.take(i as int)),
        decreases bytes@.len() - i,
    {
        let b = bytes[i];
        s.append(hex_char_str(b / 16));
        s.append(hex_char_str(b % 16));
        proof {
            assert(s@ =~= seq!['0', 'x'] + hex_of(bytes@.take(i as int + 1))) by {
                let prev = bytes@.take(i as int);
                let cur = bytes@.take(i as int + 1);
                assert forall|j: int| 0 <= j < 2 * cur.len() implies hex_of(cur)[j] == s@[2 + j] by {
                    if j < 2 * prev.len() {
                        assert(cur[j / 2] == prev[j / 2]);
                        assert(hex_of(prev)[j] == s@[2 + j]);
                    } else {
                        assert(cur[j / 2] == bytes@[i as int]);
                    }
                }
            }
        }
        i += 1;
    }
    proof {
        assert(bytes@.take(bytes@.len() as int) =~= bytes@);
    }
    s
}

} // verus!
