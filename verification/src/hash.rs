//! The content hash that addresses trie nodes.

use crate::types::H256;
use vstd::prelude::*;

verus! {

/// The 32-byte Keccak-256 digest of `data`.
pub uninterp spec fn crypt_hash_of(data: Seq<u8>) -> Seq<u8>;

/// Computes the content hash of `data`.
///
/// Trusted: the body calls `tiny_keccak::keccak256`, which absorbs the whole
/// input and squeezes 32 bytes, for every input and without failing. The
/// contract only says that the bytes it returns are the ones that
/// `crypt_hash_of` names for this input.
#[verifier::external_body]
pub(crate) fn crypt_hash(data: &[u8]) -> (digest: H256)
    ensures
        digest@ == crypt_hash_of(data@),
{
    H256(tiny_keccak::keccak256(data))
}

} // verus!
