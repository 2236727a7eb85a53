//! Byte and text codecs the protocol relies on: SHA-256 digests (from
//! `ring`), hexadecimal encoding (from `hex`), and UTF-8 decoding (from std).

use vstd::prelude::*;
use vstd::utf8::*;

verus! {

/// The SHA-256 digest of `data`, as computed by `ring::digest`.
pub uninterp spec fn sha256_digest(data: Seq<u8>) -> Seq<u8>;

/// Calls `ring::digest::digest` with `ring::digest::SHA256`.  Trusted: the
/// bytes returned are the digest of `data` (a function of `data` alone) and
/// there are 32 of them, the output length of `SHA256`.
#[verifier::external_body]
pub(crate) fn sha256(data: &[u8]) -> (digest: Vec<u8>)
    ensures
        digest@ == sha256_digest(data@),
        digest@.len() == 32,
{
    ring::digest::digest(&ring::digest::SHA256, data).as_ref().to_vec()
}

/// The value of one hexadecimal digit, given as an ASCII byte: `0`-`9`,
/// `a`-`f` or `A`-`F`.
pub open spec fn hex_digit_value(b: u8) -> Option<u8> {
    if 65 <= b <= 70 {
        Some((b - 55) as u8)
    } else if 97 <= b <= 102 {
        Some((b - 87) as u8)
    } else if 48 <= b <= 57 {
        Some((b - 48) as u8)
    } else {
        None
    }
}

/// What `hex::decode` gives back for the bytes `hex`: `None` for an odd
/// length or a byte that is no hexadecimal digit, else one byte for each
/// pair of digits, the first digit being the high nibble.
pub open spec fn hex_decode_spec(hex: Seq<u8>) -> Option<Seq<u8>> {
    if hex.len() % 2 != 0 {
        None
    } else if forall|i: int| 0 <= i < hex.len() ==> (#[trigger] hex_digit_value(hex[i])) is Some {
        Some(
            Seq::new(
                hex.len() / 2,
                |k: int|
                    (hex_digit_value(hex[2 * k]).unwrap() * 16 + hex_digit_value(
                        hex[2 * k + 1],
                    ).unwrap()) as u8,
            ),
        )
    } else {
        None
    }
}

/// The lower-case hexadecimal digit for a nibble `v` in `0..16`.
pub open spec fn hex_lower_digit(v: int) -> char {
    if v < 10 {
        (48 + v) as char
    } else {
        (87 + v) as char
    }
}

/// What `hex::encode` gives back for `data`: two lower-case digits per byte,
/// high nibble first.
pub open spec fn hex_encode_spec(data: Seq<u8>) -> Seq<char> {
    Seq::new(
        2 * data.len(),
        |i: int|
            if i % 2 == 0 {
                hex_lower_digit(data[i / 2] as int / 16)
            } else {
                hex_lower_digit(data[i / 2] as int % 16)
            },
    )
}

#[verifier::external_type_specification]
#[verifier::external_body]
pub struct ExFromHexError(hex::FromHexError);

/// Calls `hex::encode`.  Trusted: the string holds two lower-case hex
/// digits per byte of `data`, high nibble first (as the crate documents and
/// its `HEX_CHARS_LOWER` table shows).
#[verifier::external_body]
pub(crate) fn hex_encode(data: &[u8]) -> (text: String)
    ensures
        text@ == hex_encode_spec(data@),
{
    hex::encode(data)
}

/// Calls `hex::decode`.  Trusted: it fails exactly on an odd length or on a
/// byte that is no hexadecimal digit, and otherwise gives back one byte per
/// pair of digits (as `FromHex for Vec<u8>` in the crate's source shows).
#[verifier::external_body]
pub(crate) fn hex_decode(hex: &[u8]) -> (r: Result<Vec<u8>, hex::FromHexError>)
    ensures
        match hex_decode_spec(hex@) {
            Some(bytes) => r matches Ok(v) && v@ == bytes,
            None => r is Err,
        },
{
    hex::decode(hex)
}

#[verifier::external_type_specification]
#[verifier::external_body]
pub struct ExUtf8Error(std::str::Utf8Error);

/// Calls `std::str::from_utf8`.  Trusted: it succeeds exactly on valid
/// UTF-8, and then the string holds the characters the bytes encode.
#[verifier::external_body]
pub(crate) fn utf8_decode(bytes: &[u8]) -> (r: Result<&str, std::str::Utf8Error>)
    ensures
        r is Ok <==> valid_utf8(bytes@),
        r matches Ok(s) ==> s@ == decode_utf8(bytes@),
{
    std::str::from_utf8(bytes)
}

/// Collects the characters of `s` with `str::chars`.  Trusted: the vector
/// holds the characters of `s` in order.
#[verifier::external_body]
pub(crate) fn str_chars(s: &str) -> (chars: Vec<char>)
    ensures
        chars@ == s@,
{
    s.chars().collect()
}

/// Collects characters into a `String` (`FromIterator<char>`).  Trusted: the
/// string holds exactly these characters, in order.
#[verifier::external_body]
pub(crate) fn string_from_chars(chars: &[char]) -> (s: String)
    ensures
        s@ == chars@,
{
    chars.iter().collect()
}

/// Whether two byte sequences are equal, element by element.
pub fn bytes_equal(a: &[u8], b: &[u8]) -> (r: bool)
    ensures
        r == (a@ == b@),
{
    if a.len() != b.len() {
        return false;
    }
    let mut i: usize = 0;
    while i < a.len()
        invariant
            a@.len() == b@.len(),
            i <= a@.len(),
            forall|k: int| 0 <= k < i ==> a@[k] == b@[k],
        decreases a@.len() - i,
    {
        if a[i] != b[i] {
            return false;
        }
        i = i + 1;
    }
    assert(a@ =~= b@);
    true
}

} // verus!
