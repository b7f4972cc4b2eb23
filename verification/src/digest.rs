//! Trusted interface to the SHA-256 digest, the hash underneath the
//! checksummed address encoding.

use vstd::prelude::*;
use sha2::Digest;

verus! {

/// The SHA-256 digest of a byte string. The digest is a pure function of the
/// input bytes alone; its value is only named here, never spelled out.
pub uninterp spec fn sha256_of(data: Seq<u8>) -> Seq<u8>;

/// Relies on `sha2::Sha256` (through the `Digest` trait): the returned vector
/// is the 32-byte SHA-256 digest of the input, a function of the input bytes
/// alone.
#[verifier::external_body]
pub(crate) fn sha256(data: &Vec<u8>) -> (r: Vec<u8>)
    ensures
        r@ == sha256_of(data@),
        r@.len() == 32,
{
    sha2::Sha256::digest(data.as_slice()).to_vec()
}

} // verus!
