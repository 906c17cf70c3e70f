//! Base64 encoding of the upload payload, through the `base64` crate's
//! standard engine.

use vstd::prelude::*;
use base64::Engine;

verus! {

/// The standard base64 encoding of a byte sequence, padding included.
pub uninterp spec fn base64_of(b: Seq<u8>) -> Seq<char>;

/// The characters the standard padded base64 alphabet can produce.
pub open spec fn is_base64_char(c: char) -> bool {
    ||| 'A' <= c <= 'Z'
    ||| 'a' <= c <= 'z'
    ||| '0' <= c <= '9'
    ||| c == '+'
    ||| c == '/'
    ||| c == '='
}

/// Relies on the `base64` crate's STANDARD engine encode: standard alphabet,
/// padded output of four characters for every started group of three bytes.
#[verifier::external_body]
pub fn file_base64(bytes: &Vec<u8>) -> (r: String)
    requires
        4 * bytes@.len() <= usize::MAX - 16,
    ensures
        r@ == base64_of(bytes@),
        r@.len() == 4 * ((bytes@.len() + 2) / 3),
        forall|i: int| 0 <= i < r@.len() ==> is_base64_char(#[trigger] r@[i]),
{
    base64::engine::general_purpose::STANDARD.encode(bytes)
}

/// Relies on the `base64` crate's STANDARD engine decode: decoding inverts
/// encoding, so any string that is the encoding of some bytes decodes back
/// to exactly those bytes.
#[verifier::external_body]
pub fn base64_decode(s: &str) -> (r: Option<Vec<u8>>)
    ensures
        forall|b: Seq<u8>| s@ == #[trigger] base64_of(b) ==> r is Some && r->0@ == b,
{
    match base64::engine::general_purpose::STANDARD.decode(s) {
        Ok(v) => Some(v),
        Err(_) => None,
    }
}

/// Law: encoding a payload and decoding the result returns the original
/// bytes.
pub fn base64_round_trip(bytes: &Vec<u8>) -> (r: Option<Vec<u8>>)
    requires
        4 * bytes@.len() <= usize::MAX - 16,
    ensures
        r matches Some(v) && v@ == bytes@,
{
    let encoded = file_base64(bytes);
    base64_decode(encoded.as_str())
}

} // verus!
