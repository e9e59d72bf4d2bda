use base58::{FromBase58, ToBase58};
use vstd::prelude::*;
use vstd::string::StringSliceAdditionalSpecFns;
use vstd::utf8::encode_utf8;

verus! {

/// The ASCII code of the lowercase hex digit for `n` (below 16).
pub open spec fn hex_digit(n: u8) -> u8 {
    if n < 10 {
        (48 + n) as u8
    } else {
        (87 + n) as u8
    }
}

/// The value of an ASCII hex digit of either case, if `c` is one.
pub open spec fn hex_value(c: u8) -> Option<u8> {
    if 48 <= c <= 57 {
        Some((c - 48) as u8)
    } else if 97 <= c <= 102 {
        Some((c - 87) as u8)
    } else if 65 <= c <= 70 {
        Some((c - 55) as u8)
    } else {
        None
    }
}

/// Lowercase hex text of `b`: two digits per byte, high nibble first.
pub open spec fn hex_text(b: Seq<u8>) -> Seq<u8> {
    Seq::new(
        2 * b.len(),
        |i: int|
            if i % 2 == 0 {
                hex_digit(b[i / 2] / 16)
            } else {
                hex_digit(b[i / 2] % 16)
            },
    )
}

/// The bytes that hex text `t` spells, if it is hex text: an even number of
/// digits of either case.
pub open spec fn hex_decoded(t: Seq<u8>) -> Option<Seq<u8>> {
    if t.len() % 2 == 0 && forall|i: int| 0 <= i < t.len() ==> (#[trigger] hex_value(t[i])) is Some {
        Some(
            Seq::new(
                t.len() / 2,
                |i: int| (hex_value(t[2 * i])->0 * 16 + hex_value(t[2 * i + 1])->0) as u8,
            ),
        )
    } else {
        None
    }
}

/// Base58 text of a byte string.
pub uninterp spec fn base58_text(b: Seq<u8>) -> Seq<u8>;

/// The bytes that base58 text decodes to, if it decodes.
pub uninterp spec fn base58_decoded(t: Seq<u8>) -> Option<Seq<u8>>;

/// Decoding the hex text of `b` gives `b` back.
pub proof fn lemma_hex_round_trip(b: Seq<u8>)
    ensures
        hex_decoded(hex_text(b)) == Some(b),
{
    let t = hex_text(b);
    assert forall|i: int| 0 <= i < t.len() implies (#[trigger] hex_value(t[i])) is Some by {
        let x = b[i / 2];
        assert(x / 16 < 16 && x % 16 < 16);
    }
    let d = hex_decoded(t)->0;
    assert forall|i: int| 0 <= i < b.len() implies d[i] == b[i] by {
        let x = b[i];
        assert(t[2 * i] == hex_digit(x / 16));
        assert(t[2 * i + 1] == hex_digit(x % 16));
        assert(x / 16 < 16 && x % 16 < 16);
        assert(hex_value(hex_digit(x / 16)) == Some(x / 16));
        assert(hex_value(hex_digit(x % 16)) == Some(x % 16));
        assert((x / 16) * 16 + x % 16 == x);
    }
    assert(d =~= b);
}

#[verifier::external_type_specification]
#[verifier::external_body]
pub struct ExFromHexError(hex::FromHexError);

#[verifier::external_type_specification]
#[verifier::external_body]
pub struct ExFromBase58Error(base58::FromBase58Error);

/// Relies on `hex::encode`: two lowercase hex digits per byte, high nibble first.
#[verifier::external_body]
pub(crate) fn hex_encode(b: &[u8]) -> (r: String)
    ensures
        encode_utf8(r@) == hex_text(b@),
{
    hex::encode(b)
}

/// Relies on `hex::decode`: it accepts exactly an even number of hex digits of
/// either case, and returns the bytes they spell.
#[verifier::external_body]
pub(crate) fn hex_decode(s: &str) -> (r: Result<Vec<u8>, hex::FromHexError>)
    ensures
        match r {
            Ok(v) => hex_decoded(s.spec_bytes()) == Some(v@),
            Err(_) => hex_decoded(s.spec_bytes()) is None,
        },
{
    hex::decode(s)
}

/// Relies on base58's `ToBase58::to_base58` for byte slices: the text depends on
/// the bytes alone, is ASCII, has at most `len * 138 / 100 + 1` digits, and
/// `FromBase58::from_base58` turns it back into the bytes when there are at
/// most 32 of them.
#[verifier::external_body]
pub(crate) fn base58_encode(b: &[u8]) -> (r: String)
    ensures
        encode_utf8(r@) == base58_text(b@),
        encode_utf8(r@).len() <= b@.len() * 138 / 100 + 1,
        b@.len() <= 32 ==> base58_decoded(encode_utf8(r@)) == Some(b@),
{
    b.to_base58()
}

/// Relies on base58's `FromBase58::from_base58` for strings: the result
/// depends on the text alone. Longer text with many leading `1` digits can
/// make it panic, so at most 100 bytes are handed to it.
#[verifier::external_body]
pub(crate) fn base58_decode(s: &str) -> (r: Result<Vec<u8>, base58::FromBase58Error>)
    requires
        s.spec_bytes().len() <= 100,
    ensures
        match r {
            Ok(v) => base58_decoded(s.spec_bytes()) == Some(v@),
            Err(_) => base58_decoded(s.spec_bytes()) is None,
        },
{
    s.from_base58()
}

} // verus!
