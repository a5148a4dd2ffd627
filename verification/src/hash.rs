//! Keccak-256 digests, computed by the `sha3` crate.
use sha3::Digest;
use vstd::prelude::*;

verus! {

/// The Keccak-256 digest of a byte sequence, as the `sha3` crate computes it.
pub uninterp spec fn keccak256_digest(data: Seq<u8>) -> Seq<u8>;

/// Calls `sha3::Keccak256::digest` on `data` and copies the digest out.
///
/// Trusted: the result is the Keccak-256 digest of `data` (named, not stated)
/// and is 32 bytes long (`Keccak256`'s output size is `U32`).
#[verifier::external_body]
pub fn keccak256(data: &[u8]) -> (digest: Vec<u8>)
    ensures
        digest@ == keccak256_digest(data@),
        digest@.len() == 32,
{
    sha3::Keccak256::digest(data).to_vec()
}

} // verus!
