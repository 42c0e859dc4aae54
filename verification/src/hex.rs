//! Hex decoding for the coinbase artifacts a wallet hands back.
//!
//! A valid hex string has even length and only hexadecimal digits, upper
//! or lower case; every other string is rejected.

use vstd::prelude::*;
use vstd::string::StrSliceExecFns;

verus! {

/// Numeric value of a hex digit; 16 marks a character that is no digit.
pub open spec fn hex_digit_val(c: char) -> u32 {
    let v = c as u32;
    if 48 <= v && v <= 57 {
        (v - 48) as u32
    } else if 97 <= v && v <= 102 {
        (v - 87) as u32
    } else if 65 <= v && v <= 70 {
        (v - 55) as u32
    } else {
        16
    }
}

/// Whether `c` is a hexadecimal digit.
pub open spec fn is_hex_digit(c: char) -> bool {
    hex_digit_val(c) < 16
}

/// Whether `s` is a valid hex string: even length, all digits.
pub open spec fn is_hex_str(s: Seq<char>) -> bool {
    s.len() % 2 == 0 && (forall|i: int| 0 <= i < s.len() ==> is_hex_digit(s[i]))
}

/// The byte sequence a valid hex string denotes, one byte per digit pair.
pub open spec fn hex_bytes(s: Seq<char>) -> Seq<u8> {
    Seq::new(
        s.len() / 2,
        |i: int| (hex_digit_val(s[2 * i]) * 16 + hex_digit_val(s[2 * i + 1])) as u8,
    )
}

/// Numeric value of one hex digit character, or 16 if it is none.
fn hex_digit(c: char) -> (r: u32)
    ensures
        r == hex_digit_val(c),
{
    let v = c as u32;
    if 48 <= v && v <= 57 {
        v - 48
    } else if 97 <= v && v <= 102 {
        v - 87
    } else if 65 <= v && v <= 70 {
        v - 55
    } else {
        16
    }
}

/// Decodes a hex string to its bytes. Returns `None` exactly on strings
/// of odd length or with a character that is no hex digit.
pub fn from_hex(s: &str) -> (r: Option<Vec<u8>>)
    ensures
        r is Some <==> is_hex_str(s@),
        r matches Some(b) ==> b@ == hex_bytes(s@),
{
    let n = s.unicode_len();
    if n % 2 != 0 {
        return None;
    }
    let mut out: Vec<u8> = Vec::new();
    let mut i: usize = 0;
    while i < n
        invariant
            n == s@.len(),
            n % 2 == 0,
            i % 2 == 0,
            i <= n,
            out@.len() == i / 2,
            forall|j: int| 0 <= j < i ==> is_hex_digit(s@[j]),
            forall|j: int| 0 <= j < i / 2 ==> out@[j] == hex_bytes(s@)[j],
        decreases n - i,
    {
        let hi = hex_digit(s.get_char(i));
        let lo = hex_digit(s.get_char(i + 1));
        if hi >= 16 || lo >= 16 {
            return None;
        }
        out.push((hi * 16 + lo) as u8);
        i = i + 2;
    }
    assert(out@ =~= hex_bytes(s@));
    Some(out)
}

} // verus!
