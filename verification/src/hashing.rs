//! BLAKE2 digests, computed by `sp_io::hashing`.
use vstd::prelude::*;

verus! {

/// The 128-bit BLAKE2b digest of a byte string, as `sp_io::hashing::blake2_128` computes it.
pub uninterp spec fn blake2_128_digest(data: Seq<u8>) -> [u8; 16];

/// The 256-bit BLAKE2b digest of a byte string, as `sp_io::hashing::blake2_256` computes it.
pub uninterp spec fn blake2_256_digest(data: Seq<u8>) -> [u8; 32];

/// Calls `sp_io::hashing::blake2_128`. Trusted: the digest it returns depends on the bytes
/// alone, and is the one that `blake2_128_digest` names for them.
#[verifier::external_body]
pub(crate) fn blake2_128(data: &[u8]) -> (digest: [u8; 16])
    ensures
        digest == blake2_128_digest(data@),
{
    sp_io::hashing::blake2_128(data)
}

/// Calls `sp_io::hashing::blake2_256`. Trusted: the digest it returns depends on the bytes
/// alone, and is the one that `blake2_256_digest` names for them.
#[verifier::external_body]
pub(crate) fn blake2_256(data: &[u8]) -> (digest: [u8; 32])
    ensures
        digest == blake2_256_digest(data@),
{
    sp_io::hashing::blake2_256(data)
}

} // verus!
