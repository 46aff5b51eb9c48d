//! Hexadecimal encoding of byte strings, as used for signatures and
//! public keys carried in request headers and configuration values.

use vstd::prelude::*;

verus! {

/// The lower-case hex digit standing for a value in `0..16`.
pub open spec fn hex_digit(n: int) -> char {
    if n == 0 {
        '0'
    } else if n == 1 {
        '1'
    } else if n == 2 {
        '2'
    } else if n == 3 {
        '3'
    } else if n == 4 {
        '4'
    } else if n == 5 {
        '5'
    } else if n == 6 {
        '6'
    } else if n == 7 {
        '7'
    } else if n == 8 {
        '8'
    } else if n == 9 {
        '9'
    } else if n == 10 {
        'a'
    } else if n == 11 {
        'b'
    } else if n == 12 {
        'c'
    } else if n == 13 {
        'd'
    } else if n == 14 {
        'e'
    } else {
        'f'
    }
}

/// Whether `c` is a hex digit in either case.
pub open spec fn is_hex_digit(c: char) -> bool {
    ('0' as int <= c as int && c as int <= '9' as int) || ('a' as int <= c as int && c as int
        <= 'f' as int) || ('A' as int <= c as int && c as int <= 'F' as int)
}

/// The value of a hex digit, in either case.
pub open spec fn hex_val(c: char) -> int {
    if '0' as int <= c as int && c as int <= '9' as int {
        c as int - '0' as int
    } else if 'a' as int <= c as int && c as int <= 'f' as int {
        c as int - 'a' as int + 10
    } else {
        c as int - 'A' as int + 10
    }
}

/// The lower-case hex encoding of a byte string: two digits per byte,
/// high nibble first.
pub open spec fn hex_of(bytes: Seq<u8>) -> Seq<char> {
    Seq::new(
        bytes.len() * 2,
        |i: int|
            if i % 2 == 0 {
                hex_digit(bytes[i / 2] as int / 16)
            } else {
                hex_digit(bytes[i / 2] as int % 16)
            },
    )
}

/// Whether a character string is a well-formed hex encoding: an even
/// number of characters, each a hex digit in either case.
pub open spec fn valid_hex(s: Seq<char>) -> bool {
    s.len() % 2 == 0 && (forall|i: int| 0 <= i < s.len() ==> is_hex_digit(#[trigger] s[i]))
}

/// The byte string a well-formed hex encoding stands for.
pub open spec fn unhex_of(s: Seq<char>) -> Seq<u8> {
    Seq::new(s.len() / 2, |i: int| (hex_val(s[2 * i]) * 16 + hex_val(s[2 * i + 1])) as u8)
}

/// Every byte string survives a hex round trip: its encoding is
/// well-formed, twice as long, and decodes back to the same bytes.
pub proof fn lemma_hex_round_trip(bytes: Seq<u8>)
    ensures
        valid_hex(hex_of(bytes)),
        hex_of(bytes).len() == bytes.len() * 2,
        unhex_of(hex_of(bytes)) == bytes,
{
    assert forall|n: int| 0 <= n < 16 implies is_hex_digit(hex_digit(n)) && hex_val(hex_digit(n))
        == n by {}
    let enc = hex_of(bytes);
    assert forall|i: int| 0 <= i < enc.len() implies is_hex_digit(#[trigger] enc[i]) by {
        assert(0 <= bytes[i / 2] as int / 16 < 16);
        assert(0 <= bytes[i / 2] as int % 16 < 16);
    }
    assert forall|i: int| 0 <= i < bytes.len() implies #[trigger] unhex_of(enc)[i] == bytes[i] by {
        assert(enc[2 * i] == hex_digit(bytes[i] as int / 16));
        assert(enc[2 * i + 1] == hex_digit(bytes[i] as int % 16));
        assert(hex_val(enc[2 * i]) * 16 + hex_val(enc[2 * i + 1]) == bytes[i] as int);
    }
    assert(unhex_of(enc) =~= bytes);
}

/// Relies on `hex::encode`: each byte becomes two lower-case hex
/// digits, high nibble first, in input order.
#[verifier::external_body]
pub(crate) fn hex_encode(bytes: &[u8]) -> (r: String)
    ensures
        r@ == hex_of(bytes@),
{
    hex::encode(bytes)
}

/// Relies on `hex::decode`: decoding succeeds exactly on an even
/// number of hex digits (either case), pairing digits into bytes.
#[verifier::external_body]
pub(crate) fn hex_decode(s: &str) -> (r: Option<Vec<u8>>)
    ensures
        r is Some <==> valid_hex(s@),
        r is Some ==> r.unwrap()@ == unhex_of(s@),
{
    hex::decode(s).ok()
}

} // verus!
