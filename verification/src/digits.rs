//! Verified rendering of numbers as lowercase hexadecimal characters and
//! decimal digit bytes.

use vstd::prelude::*;

verus! {

/// The lowercase hexadecimal digit character for a value below 16.
pub open spec fn hex_digit(n: u8) -> char {
    if n < 10 {
        ((48 + n) as u8) as char
    } else {
        ((87 + n) as u8) as char
    }
}

/// Lowercase hex encoding of a byte sequence: two digits per byte,
/// high nibble first.
pub open spec fn hex_chars_of(b: Seq<u8>) -> Seq<char>
    decreases b.len(),
{
    if b.len() == 0 {
        Seq::empty()
    } else {
        seq![hex_digit(b[0] / 16), hex_digit(b[0] % 16)] + hex_chars_of(b.skip(1))
    }
}

pub proof fn lemma_hex_chars_len(b: Seq<u8>)
    ensures
        hex_chars_of(b).len() == 2 * b.len(),
    decreases b.len(),
{
    if b.len() != 0 {
        lemma_hex_chars_len(b.skip(1));
    }
}

/// Lowercase hex numeral of `n` without leading zeros, as `{:x}`
/// formatting renders it.
pub open spec fn hex_numeral(n: nat) -> Seq<char>
    decreases n,
{
    if n < 16 {
        seq![hex_digit(n as u8)]
    } else {
        hex_numeral(n / 16) + seq![hex_digit((n % 16) as u8)]
    }
}

pub proof fn lemma_hex_numeral_len(n: nat)
    ensures
        hex_numeral(n).len() >= 1,
{
}

fn hex_digit_str(n: u8) -> (r: &'static str)
    requires
        n < 16,
    ensures
        r@ =~= seq![hex_digit(n)],
{
    proof {
        reveal_strlit("0");
        reveal_strlit("1");
        reveal_strlit("2");
        reveal_strlit("3");
        reveal_strlit("4");
        reveal_strlit("5");
        reveal_strlit("6");
        reveal_strlit("7");
        reveal_strlit("8");
        reveal_strlit("9");
        reveal_strlit("a");
        reveal_strlit("b");
        reveal_strlit("c");
        reveal_strlit("d");
        reveal_strlit("e");
        reveal_strlit("f");
    }
    match n {
        0 => "0",
        1 => "1",
        2 => "2",
        3 => "3",
        4 => "4",
        5 => "5",
        6 => "6",
        7 => "7",
        8 => "8",
        9 => "9",
        10 => "a",
        11 => "b",
        12 => "c",
        13 => "d",
        14 => "e",
        _ => "f",
    }
}

/// Renders `n` in lowercase hexadecimal without leading zeros.
pub fn u64_to_hex(n: u64) -> (r: String)
    ensures
        r@ == hex_numeral(n as nat),
    decreases n,
{
    if n < 16 {
        String::from_str(hex_digit_str(n as u8))
    } else {
        let mut s = u64_to_hex(n / 16);
        s.append(hex_digit_str((n % 16) as u8));
        proof {
            assert(s@ =~= hex_numeral(n as nat));
        }
        s
    }
}

/// The ASCII byte of the decimal digit for a value below 10.
pub open spec fn dec_digit_byte(n: int) -> u8 {
    (48 + n) as u8
}

/// Decimal numeral of `n` without leading zeros, as ASCII bytes.
pub open spec fn dec_bytes_of(n: nat) -> Seq<u8>
    decreases n,
{
    if n < 10 {
        seq![dec_digit_byte(n as int)]
    } else {
        dec_bytes_of(n / 10) + seq![dec_digit_byte((n % 10) as int)]
    }
}

/// Renders `n` in decimal as ASCII digit bytes.
pub fn usize_to_dec_bytes(n: usize) -> (r: Vec<u8>)
    ensures
        r@ == dec_bytes_of(n as nat),
    decreases n,
{
    if n < 10 {
        let mut v: Vec<u8> = Vec::new();
        v.push(48 + (n as u8));
        proof {
            assert(v@ =~= dec_bytes_of(n as nat));
        }
        v
    } else {
        let mut v = usize_to_dec_bytes(n / 10);
        v.push(48 + ((n % 10) as u8));
        proof {
            assert(v@ =~= dec_bytes_of(n as nat));
        }
        v
    }
}

} // verus!
