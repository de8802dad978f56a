//! Keccak-256 digests.
//!
//! The digests are computed by `anchor_lang::solana_program::keccak`; the
//! library does not look inside them. It gives each digest a name, so that
//! what it says about Merkle roots is exact, and relies on nothing else.

use vstd::prelude::*;

verus! {

/// The Keccak-256 digest of a byte string.
pub uninterp spec fn keccak_hash(data: Seq<u8>) -> Seq<u8>;

/// The Keccak-256 digest of two byte strings taken one after the other.
pub uninterp spec fn keccak_hashv(first: Seq<u8>, second: Seq<u8>) -> Seq<u8>;

/// Calls `anchor_lang::solana_program::keccak::hash` on 32 bytes and hands
/// out the 32 bytes of the digest it returns. Trusted: the digest is the
/// one that `keccak_hash` names.
#[verifier::external_body]
#[allow(deprecated)]
pub(crate) fn hash(data: &[u8; 32]) -> (digest: [u8; 32])
    ensures
        digest@ == keccak_hash(data@),
{
    anchor_lang::solana_program::keccak::hash(data).0
}

/// Calls `anchor_lang::solana_program::keccak::hashv` on two 32-byte
/// strings, in the order given, and hands out the 32 bytes of the digest it
/// returns. Trusted: the digest is the one that `keccak_hashv` names.
#[verifier::external_body]
#[allow(deprecated)]
pub(crate) fn hashv(first: &[u8; 32], second: &[u8; 32]) -> (digest: [u8; 32])
    ensures
        digest@ == keccak_hashv(first@, second@),
{
    anchor_lang::solana_program::keccak::hashv(&[first, second]).0
}

} // verus!
