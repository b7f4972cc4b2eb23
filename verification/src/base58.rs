//! Trusted interface to the base58 codec (Bitcoin alphabet) that both address
//! encodings are written in.

use vstd::prelude::*;

verus! {

/// The base58 text, in the Bitcoin alphabet, of a byte string. Base58 maps
/// every byte string to a text; the map is a pure function of the bytes and
/// is injective, which the decoder's contract below states pointwise.
pub uninterp spec fn base58_of(data: Seq<u8>) -> Seq<char>;

/// Relies on `bs58::encode` with the default (Bitcoin) alphabet: the returned
/// string is the base58 text of the bytes, a function of the bytes alone.
#[verifier::external_body]
pub(crate) fn base58_encode(data: &Vec<u8>) -> (r: String)
    ensures
        r@ == base58_of(data@),
{
    bs58::encode(data.as_slice()).into_string()
}

/// Relies on `bs58::decode` with the default (Bitcoin) alphabet. Base58 is a
/// bijection between byte strings and the texts it produces: decoding returns
/// the unique byte string whose base58 text is the input when there is one,
/// and fails exactly when the input is no base58 text at all.
#[verifier::external_body]
pub(crate) fn base58_decode(s: &str) -> (r: Option<Vec<u8>>)
    ensures
        match r {
            Some(v) => s@ == base58_of(v@) && (forall|b: Seq<u8>| base58_of(b) == s@ ==> b == v@),
            None => forall|b: Seq<u8>| s@ != base58_of(b),
        },
{
    bs58::decode(s).into_vec().ok()
}

} // verus!
