//! The base-64 text form of blob values, behind the encoder the rest of
//! the system shares.

use vstd::prelude::*;

use base64::Engine;

verus! {

/// The standard-alphabet, padded base-64 rendering of a byte sequence.
pub uninterp spec fn base64_of(bytes: Seq<u8>) -> Seq<char>;

/// What the standard-alphabet decoder accepts, and the bytes it yields.
pub uninterp spec fn base64_decode_of(s: Seq<char>) -> Option<Seq<u8>>;

/// Relies on base64's `Engine::encode` with the standard alphabet: four
/// output characters for every three input bytes, padded, and inverted
/// exactly by the decoder.
#[verifier::external_body]
pub fn base64_encode(bytes: &Vec<u8>) -> (r: String)
    requires
        bytes@.len() <= usize::MAX / 4,
    ensures
        r@ == base64_of(bytes@),
        r@.len() == 4 * ((bytes@.len() + 2) / 3),
        base64_decode_of(r@) == Option::Some(bytes@),
{
    base64::engine::general_purpose::STANDARD.encode(bytes.as_slice())
}

/// Relies on base64's `Engine::decode` with the standard alphabet.
#[verifier::external_body]
pub fn base64_decode(s: &str) -> (r: Option<Vec<u8>>)
    ensures
        match r {
            Option::Some(b) => base64_decode_of(s@) == Option::Some(b@),
            Option::None => base64_decode_of(s@) is None,
        },
{
    base64::engine::general_purpose::STANDARD.decode(s.as_bytes()).ok()
}

} // verus!
