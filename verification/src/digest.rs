//! Cryptographic digests, taken from the `sha1` and `sha2` crates.

use sha1::Digest;

use vstd::prelude::*;

verus! {

/// The SHA-1 digest of a byte sequence, as the `sha1` crate computes it.
pub uninterp spec fn sha1_of(data: Seq<u8>) -> Seq<u8>;

/// The SHA-256 digest of a byte sequence, as the `sha2` crate computes it.
pub uninterp spec fn sha256_of(data: Seq<u8>) -> Seq<u8>;

/// Calls `<sha1::Sha1 as digest::Digest>::digest` on `data`. Claimed: the
/// result is `sha1_of(data)` (a function of the input bytes alone) and is
/// 20 bytes long, the output size of SHA-1.
#[verifier::external_body]
pub(crate) fn sha1_digest(data: &[u8]) -> (d: Vec<u8>)
    ensures
        d@ == sha1_of(data@),
        d@.len() == 20,
{
    sha1::Sha1::digest(data).to_vec()
}

/// Calls `<sha2::Sha256 as digest::Digest>::digest` on `data`. Claimed: the
/// result is `sha256_of(data)` (a function of the input bytes alone) and is
/// 32 bytes long, the output size of SHA-256.
#[verifier::external_body]
pub(crate) fn sha256_digest(data: &[u8]) -> (d: Vec<u8>)
    ensures
        d@ == sha256_of(data@),
        d@.len() == 32,
{
    sha2::Sha256::digest(data).to_vec()
}

} // verus!
