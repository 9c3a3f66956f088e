//! The Keccak-256 hash the `KECCAK256` opcode and code hashing rely on,
//! named but not restated: the digest is a function of the input bytes
//! alone.

use vstd::prelude::*;

verus! {

/// The 32-byte Keccak-256 digest of a byte string.
pub uninterp spec fn keccak256_of(data: Seq<u8>) -> Seq<u8>;

/// Relies on sha3's `Keccak256`: the digest depends on the input bytes
/// alone and is 32 bytes long.
#[verifier::external_body]
pub fn keccak256(data: &[u8]) -> (r: Vec<u8>)
    ensures
        r@ == keccak256_of(data@),
        r@.len() == 32,
{
    let digest = <sha3::Keccak256 as sha3::Digest>::digest(data);
    digest.as_slice().to_vec()
}

} // verus!
