//! Hexadecimal text, read with the `hex` crate.
use vstd::prelude::*;

verus! {

/// The error type of `hex::decode`.
#[verifier::external_type_specification]
#[verifier::external_body]
pub struct ExFromHexError(hex::FromHexError);

/// The value of one hexadecimal digit, upper or lower case.
pub open spec fn hex_digit_value(b: u8) -> Option<u8> {
    if 48 <= b && b <= 57 {
        Some((b - 48) as u8)
    } else if 97 <= b && b <= 102 {
        Some((b - 87) as u8)
    } else if 65 <= b && b <= 70 {
        Some((b - 55) as u8)
    } else {
        None
    }
}

/// The bytes that the hexadecimal text `s` spells: `None` unless `s` has an
/// even length and consists of hexadecimal digits only.
pub open spec fn hex_decode_spec(s: Seq<u8>) -> Option<Seq<u8>> {
    if s.len() % 2 == 0 && forall|i: int| 0 <= i < s.len() ==> (#[trigger] hex_digit_value(s[i])) is Some {
        Some(Seq::new(
            s.len() / 2,
            |i: int| (hex_digit_value(s[2 * i]).unwrap() * 16 + hex_digit_value(s[2 * i + 1]).unwrap()) as u8,
        ))
    } else {
        None
    }
}

/// The lower-case hexadecimal digit for a value below 16.
pub open spec fn lower_hex_digit(v: int) -> u8 {
    if v < 10 {
        (v + 48) as u8
    } else {
        (v + 87) as u8
    }
}

/// The lower-case hexadecimal spelling of `bytes`, two digits per byte.
pub open spec fn hex_encode_lower(bytes: Seq<u8>) -> Seq<u8> {
    Seq::new(
        2 * bytes.len(),
        |i: int| if i % 2 == 0 { lower_hex_digit((bytes[i / 2] / 16) as int) } else { lower_hex_digit((bytes[i / 2] % 16) as int) },
    )
}

/// `hex::decode` on the bytes of `data`: it fails on an odd length or on a
/// byte that is not a hexadecimal digit, and otherwise turns each pair of
/// digits into one byte, the first digit being the high nibble.
#[verifier::external_body]
pub(crate) fn hex_decode(data: &[u8]) -> (r: Result<Vec<u8>, hex::FromHexError>)
    ensures
        r is Ok <==> hex_decode_spec(data@) is Some,
        r matches Ok(v) ==> hex_decode_spec(data@) == Some(v@),
{
    hex::decode(data)
}

/// Reading lower-case hexadecimal text gives back the bytes it spells.
pub proof fn lemma_hex_roundtrip(bytes: Seq<u8>)
    ensures
        hex_decode_spec(hex_encode_lower(bytes)) == Some(bytes),
{
    let s = hex_encode_lower(bytes);
    assert forall|i: int| 0 <= i < s.len() implies (#[trigger] hex_digit_value(s[i])) is Some by {
        let b = bytes[i / 2];
        assert(b / 16 < 16 && b % 16 < 16);
    }
    assert(s.len() % 2 == 0);
    let d = hex_decode_spec(s).unwrap();
    assert forall|i: int| 0 <= i < bytes.len() implies #[trigger] d[i] == bytes[i] by {
        let b = bytes[i];
        assert((2 * i) / 2 == i && (2 * i) % 2 == 0);
        assert((2 * i + 1) / 2 == i && (2 * i + 1) % 2 == 1);
        assert(hex_digit_value(lower_hex_digit((b / 16) as int)) == Some((b / 16) as u8));
        assert(hex_digit_value(lower_hex_digit((b % 16) as int)) == Some((b % 16) as u8));
        assert((b / 16) * 16 + b % 16 == b) by (nonlinear_arith);
    }
    assert(d =~= bytes);
}

} // verus!
