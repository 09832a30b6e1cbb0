//! The Keccak-256 hash of the `sha3` crate.

use vstd::prelude::*;

verus! {

/// The Keccak-256 digest of a byte string.
pub uninterp spec fn keccak256(data: Seq<u8>) -> Seq<u8>;

/// Calls `sha3::Keccak256::digest` (through the `Digest` trait) on `data`.
/// Trusted: the 32-byte result is the Keccak-256 digest of exactly these
/// bytes, a function of them alone (named `keccak256`).
#[verifier::external_body]
pub(crate) fn keccak256_digest(data: &[u8]) -> (d: [u8; 32])
    ensures
        d@ == keccak256(data@),
{
    let out = <sha3::Keccak256 as sha3::Digest>::digest(data);
    out.into()
}

} // verus!
