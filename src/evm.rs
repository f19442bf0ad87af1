//! The checks on a call bound for an EVM chain: a decimal chain id and a
//! `0x`-prefixed 20-byte hex contract address.

use vstd::prelude::*;

verus! {

/// Whether `c` is an ASCII decimal digit.
pub open spec fn is_digit(c: char) -> bool {
    '0' <= c && c <= '9'
}

/// The number that a string of decimal digits spells.
pub open spec fn digits_value(d: Seq<char>) -> nat
    decreases d.len(),
{
    if d.len() == 0 {
        0
    } else {
        digits_value(d.drop_last()) * 10 + ((d.last() as u32) - 48) as nat
    }
}

/// A decimal `u64` as Rust's integer parsing reads it: an optional `+`, then
/// one or more digits, with a value that fits.
pub open spec fn decimal_u64(s: Seq<char>) -> Option<u64> {
    let d = if s.len() > 0 && s[0] == '+' { s.drop_first() } else { s };
    if d.len() > 0 && (forall|i: int| 0 <= i < d.len() ==> is_digit(#[trigger] d[i])) && digits_value(d)
        <= u64::MAX {
        Some(digits_value(d) as u64)
    } else {
        None
    }
}

/// Relies on `str::parse::<u64>`: an optional `+` and decimal digits, the
/// value within range; anything else is an error.
#[verifier::external_body]
pub(crate) fn parse_u64(s: &str) -> (r: Option<u64>)
    ensures
        r == decimal_u64(s@),
{
    s.parse::<u64>().ok()
}

/// Whether byte `b` is an ASCII hex digit, in either case.
pub open spec fn is_hex_byte(b: u8) -> bool {
    (48 <= b && b <= 57) || (97 <= b && b <= 102) || (65 <= b && b <= 70)
}

/// `0x` followed by 40 hex digits: 20 bytes written in hex.
pub open spec fn is_evm_address(b: Seq<u8>) -> bool {
    &&& b.len() == 42
    &&& b[0] == 48
    &&& b[1] == 120
    &&& forall|i: int| 2 <= i < 42 ==> is_hex_byte(#[trigger] b[i])
}

/// Whether `b` is an EVM contract address.
pub fn check_evm_address(b: &[u8]) -> (r: bool)
    ensures
        r == is_evm_address(b@),
{
    if b.len() != 42 || b[0] != 48 || b[1] != 120 {
        return false;
    }
    let mut i: usize = 2;
    while i < 42
        invariant
            2 <= i <= 42,
            b@.len() == 42,
            forall|j: int| 2 <= j < i ==> is_hex_byte(#[trigger] b@[j]),
        decreases 42 - i,
    {
        let c = b[i];
        if !((48 <= c && c <= 57) || (97 <= c && c <= 102) || (65 <= c && c <= 70)) {
            return false;
        }
        i = i + 1;
    }
    true
}

} // verus!
