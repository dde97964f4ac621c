//! Hex encoding and decoding of byte strings, as used for the private
//! scalar inside a claims map.

use vstd::prelude::*;

verus! {

/// The lower-case hex digit of a value below sixteen.
pub open spec fn hex_digit(n: int) -> char {
    if n == 0 { '0' }
    else if n == 1 { '1' }
    else if n == 2 { '2' }
    else if n == 3 { '3' }
    else if n == 4 { '4' }
    else if n == 5 { '5' }
    else if n == 6 { '6' }
    else if n == 7 { '7' }
    else if n == 8 { '8' }
    else if n == 9 { '9' }
    else if n == 10 { 'a' }
    else if n == 11 { 'b' }
    else if n == 12 { 'c' }
    else if n == 13 { 'd' }
    else if n == 14 { 'e' }
    else { 'f' }
}

/// Lower-case hex encoding: two digits per byte, most significant first.
pub open spec fn hex_of(bytes: Seq<u8>) -> Seq<char>
    decreases bytes.len(),
{
    if bytes.len() == 0 {
        seq![]
    } else {
        seq![hex_digit(bytes.first() as int / 16), hex_digit(bytes.first() as int % 16)]
            + hex_of(bytes.drop_first())
    }
}

/// The value of one hex digit, upper or lower case; sixteen marks a
/// character that is no hex digit at all.
pub open spec fn hex_val(c: char) -> int {
    if c == '0' { 0 }
    else if c == '1' { 1 }
    else if c == '2' { 2 }
    else if c == '3' { 3 }
    else if c == '4' { 4 }
    else if c == '5' { 5 }
    else if c == '6' { 6 }
    else if c == '7' { 7 }
    else if c == '8' { 8 }
    else if c == '9' { 9 }
    else if c == 'a' || c == 'A' { 10 }
    else if c == 'b' || c == 'B' { 11 }
    else if c == 'c' || c == 'C' { 12 }
    else if c == 'd' || c == 'D' { 13 }
    else if c == 'e' || c == 'E' { 14 }
    else if c == 'f' || c == 'F' { 15 }
    else { 16 }
}

pub open spec fn is_hex_char(c: char) -> bool {
    hex_val(c) < 16
}

/// A string decodes iff its length is even and every character is a hex
/// digit of either case.
pub open spec fn hex_decode_ok(s: Seq<char>) -> bool
    decreases s.len(),
{
    if s.len() == 0 {
        true
    } else if s.len() == 1 {
        false
    } else {
        is_hex_char(s[0]) && is_hex_char(s[1]) && hex_decode_ok(s.skip(2))
    }
}

/// The bytes encoded by a decodable hex string.
pub open spec fn hex_decode_bytes(s: Seq<char>) -> Seq<u8>
    decreases s.len(),
{
    if s.len() < 2 {
        seq![]
    } else {
        seq![(hex_val(s[0]) * 16 + hex_val(s[1])) as u8] + hex_decode_bytes(s.skip(2))
    }
}

/// What decoding a hex string yields: the bytes, or nothing when the
/// string is malformed.
pub open spec fn hex_decode_spec(s: Seq<char>) -> Option<Seq<u8>> {
    if hex_decode_ok(s) {
        Some(hex_decode_bytes(s))
    } else {
        None
    }
}

/// Encoding then decoding gives the original bytes back.
pub proof fn lemma_hex_round_trip(bytes: Seq<u8>)
    ensures
        hex_decode_spec(hex_of(bytes)) == Some(bytes),
    decreases bytes.len(),
{
    if bytes.len() == 0 {
        assert(hex_of(bytes) =~= Seq::<char>::empty());
        assert(hex_decode_bytes(hex_of(bytes)) =~= bytes);
    } else {
        let b = bytes.first();
        let d1 = hex_digit(b as int / 16);
        let d2 = hex_digit(b as int % 16);
        let rest = hex_of(bytes.drop_first());
        let s = hex_of(bytes);
        assert(s == seq![d1, d2] + rest);
        assert(s.len() >= 2);
        assert(s[0] == d1 && s[1] == d2);
        assert(s.skip(2) =~= rest);
        lemma_hex_round_trip(bytes.drop_first());
        assert(is_hex_char(d1) && hex_val(d1) == b as int / 16);
        assert(is_hex_char(d2) && hex_val(d2) == b as int % 16);
        assert(hex_decode_ok(s));
        assert((b as int / 16) * 16 + (b as int % 16) == b) by {
            vstd::arithmetic::div_mod::lemma_fundamental_div_mod(b as int, 16);
        }
        assert((hex_val(s[0]) * 16 + hex_val(s[1])) as u8 == b);
        assert(hex_decode_bytes(s) =~= seq![b] + hex_decode_bytes(s.skip(2)));
        assert(hex_decode_bytes(s) =~= bytes);
    }
}

/// Relies on `hex::encode`: lower-case hex, two digits per byte, most
/// significant digit of each byte first.
#[verifier::external_body]
pub(crate) fn hex_encode(bytes: &[u8]) -> (r: String)
    ensures
        r@ == hex_of(bytes@),
{
    hex::encode(bytes)
}

/// Relies on `hex::decode`: accepts upper- and lower-case digits, requires
/// an even number of them, and rejects every other character.
#[verifier::external_body]
pub(crate) fn hex_decode(s: &str) -> (r: Option<Vec<u8>>)
    ensures
        match r {
            Some(v) => hex_decode_spec(s@) == Some(v@),
            None => hex_decode_spec(s@) is None,
        },
{
    hex::decode(s).ok()
}

} // verus!
