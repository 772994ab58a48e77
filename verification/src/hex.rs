//! Hexadecimal decoding of the pool-box address hash found in the
//! configuration, specified exactly and delegated to the `base16` crate.

use vstd::prelude::*;

verus! {

/// The numeric value of one hexadecimal digit; upper and lower case are
/// both accepted.
pub open spec fn hex_digit_value(c: char) -> Option<u8> {
    let n = c as u32;
    if 48 <= n && n <= 57 {
        Some((n - 48) as u8)
    } else if 97 <= n && n <= 102 {
        Some((n - 87) as u8)
    } else if 65 <= n && n <= 70 {
        Some((n - 55) as u8)
    } else {
        None
    }
}

/// What a hexadecimal string decodes to: each pair of digits becomes one
/// byte, high nibble first.  A string of odd length, or one holding a
/// character that is no hexadecimal digit, decodes to nothing.
pub open spec fn spec_hex_decode(s: Seq<char>) -> Option<Seq<u8>>
    decreases s.len(),
{
    if s.len() % 2 != 0 {
        None
    } else if s.len() == 0 {
        Some(Seq::empty())
    } else {
        match (hex_digit_value(s[0]), hex_digit_value(s[1]), spec_hex_decode(s.skip(2))) {
            (Some(hi), Some(lo), Some(rest)) => Some(
                seq![((hi as u32) * 16 + (lo as u32)) as u8].add(rest),
            ),
            _ => None,
        }
    }
}

/// Relies on `base16::decode`: pairs of hexadecimal digits, upper or
/// lower case, decode to bytes high nibble first; an input of odd length
/// or with any other character is rejected.
#[verifier::external_body]
pub(crate) fn decode_hex(s: &String) -> (r: Option<Vec<u8>>)
    ensures
        match r {
            Some(v) => spec_hex_decode(s@) == Some(v@),
            None => spec_hex_decode(s@) is None,
        },
{
    base16::decode(s).ok()
}

} // verus!
