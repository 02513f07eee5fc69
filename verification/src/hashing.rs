//! The cryptographic hash behind seed derivation, named so that contracts
//! can speak of the digest without restating the algorithm.

use vstd::prelude::*;
use sha2::Digest;

verus! {

/// The SHA-256 digest of a byte sequence: 32 bytes, a function of the input alone.
pub uninterp spec fn sha256_of(data: Seq<u8>) -> Seq<u8>;

/// Relies on sha2's `Sha256::digest`: the digest is 32 bytes and depends on
/// the input bytes alone.
#[verifier::external_body]
pub fn sha256(data: &[u8]) -> (r: Vec<u8>)
    ensures
        r@ == sha256_of(data@),
        r@.len() == 32,
{
    sha2::Sha256::digest(data).to_vec()
}

} // verus!
