//! Strict hex text to bytes and bytes to lowercase hex text.

use vstd::prelude::*;

verus! {

/// The value of a hex digit of either case, or -1 for any other character.
pub open spec fn hex_digit_value(c: char) -> int {
    match c {
        '0' => 0,
        '1' => 1,
        '2' => 2,
        '3' => 3,
        '4' => 4,
        '5' => 5,
        '6' => 6,
        '7' => 7,
        '8' => 8,
        '9' => 9,
        'a' | 'A' => 10,
        'b' | 'B' => 11,
        'c' | 'C' => 12,
        'd' | 'D' => 13,
        'e' | 'E' => 14,
        'f' | 'F' => 15,
        _ => -1,
    }
}

/// The lowercase hex digit for a value in 0..16.
pub open spec fn lower_hex_digit(n: int) -> char {
    if n == 0 { '0' } else if n == 1 { '1' } else if n == 2 { '2' } else if n == 3 { '3' }
    else if n == 4 { '4' } else if n == 5 { '5' } else if n == 6 { '6' } else if n == 7 { '7' }
    else if n == 8 { '8' } else if n == 9 { '9' } else if n == 10 { 'a' } else if n == 11 { 'b' }
    else if n == 12 { 'c' } else if n == 13 { 'd' } else if n == 14 { 'e' } else { 'f' }
}

/// Text that decodes: an even number of characters, each a hex digit.
pub open spec fn is_hex_text(s: Seq<char>) -> bool {
    &&& s.len() % 2 == 0
    &&& forall|i: int| 0 <= i < s.len() ==> hex_digit_value(#[trigger] s[i]) >= 0
}

/// The bytes that hex text stands for, two digits per byte, high digit first.
pub open spec fn hex_bytes(s: Seq<char>) -> Seq<u8> {
    Seq::new(
        (s.len() / 2) as nat,
        |i: int| (16 * hex_digit_value(s[2 * i]) + hex_digit_value(s[2 * i + 1])) as u8,
    )
}

/// Lowercase hex text of bytes, two digits per byte, high digit first.
pub open spec fn hex_text(b: Seq<u8>) -> Seq<char> {
    Seq::new(
        2 * b.len(),
        |i: int|
            if i % 2 == 0 {
                lower_hex_digit(b[i / 2] as int / 16)
            } else {
                lower_hex_digit(b[i / 2] as int % 16)
            },
    )
}

/// Text that does not decode as hex.
#[derive(Debug, Clone, Copy, PartialEq, Eq, Structural)]
pub enum HexError {
    /// An odd number of characters, or a character that is not a hex digit.
    Malformed,
}

#[verifier::external_type_specification]
#[verifier::external_body]
pub struct ExFromHexError(hex::FromHexError);

/// Relies on hex::decode: it accepts exactly text of even length made of hex
/// digits of either case, and gives one byte per pair of digits.
#[verifier::external_body]
fn hex_decode(s: &str) -> (r: Result<Vec<u8>, hex::FromHexError>)
    ensures
        match r {
            Ok(v) => is_hex_text(s@) && v@ == hex_bytes(s@),
            Err(_) => !is_hex_text(s@),
        },
{
    hex::decode(s)
}

/// Relies on hex::encode: two lowercase digits per byte, high digit first.
#[verifier::external_body]
fn hex_encode(b: &[u8]) -> (r: String)
    ensures
        r@ == hex_text(b@),
{
    hex::encode(b)
}

/// Decodes hex text of either case into bytes.
pub fn decode_hex(s: &str) -> (r: Result<Vec<u8>, HexError>)
    ensures
        match r {
            Ok(v) => is_hex_text(s@) && v@ == hex_bytes(s@),
            Err(e) => !is_hex_text(s@) && e == HexError::Malformed,
        },
{
    match hex_decode(s) {
        Ok(v) => Ok(v),
        Err(_) => Err(HexError::Malformed),
    }
}

/// Encodes bytes as lowercase hex text.
pub fn encode_hex(b: &[u8]) -> (r: String)
    ensures
        r@ == hex_text(b@),
{
    hex_encode(b)
}

proof fn lemma_digit_round_trip(n: int)
    requires
        0 <= n < 16,
    ensures
        hex_digit_value(lower_hex_digit(n)) == n,
{
}

/// Encoding any bytes gives text that decodes, and decoding it gives the
/// bytes back.
pub proof fn lemma_hex_round_trip_all(b: Seq<u8>)
    ensures
        is_hex_text(hex_text(b)),
        hex_bytes(hex_text(b)) == b,
{
    let t = hex_text(b);
    assert forall|i: int| 0 <= i < t.len() implies hex_digit_value(#[trigger] t[i]) >= 0 by {
        if i % 2 == 0 {
            lemma_digit_round_trip(b[i / 2] as int / 16);
        } else {
            lemma_digit_round_trip(b[i / 2] as int % 16);
        }
    }
    assert forall|j: int| 0 <= j < b.len() implies #[trigger] hex_bytes(t)[j] == b[j] by {
        assert((2 * j) % 2 == 0 && (2 * j) / 2 == j);
        assert((2 * j + 1) % 2 == 1 && (2 * j + 1) / 2 == j);
        lemma_digit_round_trip(b[j] as int / 16);
        lemma_digit_round_trip(b[j] as int % 16);
    }
    assert(hex_bytes(t) =~= b);
}

/// A six-byte beacon identifier written as hex and read back is the same
/// identifier.
pub proof fn lemma_identifier_hex_round_trip(id: Seq<u8>)
    requires
        id.len() == 6,
    ensures
        is_hex_text(hex_text(id)),
        hex_bytes(hex_text(id)) == id,
        hex_text(id).len() == 12,
{
    lemma_hex_round_trip_all(id);
}

} // verus!
