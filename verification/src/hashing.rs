//! SHA3-256, as the `sha3` crate computes it.
use sha3::{Digest, Sha3_256};
use vstd::prelude::*;

verus! {

/// The SHA3-256 digest of a byte string.
pub uninterp spec fn sha3_256_digest(data: Seq<u8>) -> Seq<u8>;

/// `Sha3_256::digest` (sha3): the claim is only that the 32 bytes returned
/// are the digest of `data`; what the digest is stays unsaid.
#[verifier::external_body]
pub(crate) fn sha3_256(data: &[u8]) -> (r: [u8; 32])
    ensures
        r@ == sha3_256_digest(data@),
{
    Sha3_256::digest(data).into()
}

} // verus!
