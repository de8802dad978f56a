//! Merkle whitelists.
//!
//! A whitelist is committed to by the root of a Merkle tree over the hashes
//! of its members. Each node is the Keccak-256 digest of its two children,
//! the lesser child first, so that a proof needs no directions: it is the
//! list of siblings on the way from the leaf to the root.

use vstd::prelude::*;

use crate::keccak::{hashv, keccak_hashv};
use crate::pubkey::bytes_equal;

verus! {

/// Whether `a` comes no later than `b` when 32-byte strings are ordered
/// byte by byte from the first: the two are equal, or `a` has the smaller
/// byte at the first place where they differ.
pub open spec fn lex_le(a: Seq<u8>, b: Seq<u8>) -> bool {
    a == b || exists|k: int|
        0 <= k < a.len() && k < b.len() && a[k] < b[k] && forall|j: int|
            0 <= j < k ==> a[j] == b[j]
}

/// Tests `lex_le` on two hashes.
pub fn hash_precedes(a: &[u8; 32], b: &[u8; 32]) -> (le: bool)
    ensures
        le == lex_le(a@, b@),
{
    let mut i: usize = 0;
    while i < 32
        invariant
            i <= 32,
            forall|j: int| 0 <= j < i ==> a@[j] == b@[j],
        decreases 32 - i,
    {
        if a[i] != b[i] {
            proof {
                let k = i as int;
                if a@[k] > b@[k] {
                    assert(a@ != b@);
                    assert forall|m: int|
                        0 <= m < a@.len() && m < b@.len() && a@[m] < b@[m] implies !(forall|j: int|
                        0 <= j < m ==> a@[j] == b@[j]) by {
                        if m > k {
                            assert(a@[k] != b@[k]);
                        }
                    }
                }
            }
            return a[i] < b[i];
        }
        i += 1;
    }
    assert(a@ =~= b@);
    true
}

/// The two hashes in the order in which a Merkle tree hashes them: the one
/// that `lex_le` puts first, first.
pub fn sorted_pair(current: [u8; 32], sibling: [u8; 32]) -> (pair: ([u8; 32], [u8; 32]))
    ensures
        pair == if lex_le(current@, sibling@) {
            (current, sibling)
        } else {
            (sibling, current)
        },
{
    if hash_precedes(&current, &sibling) {
        (current, sibling)
    } else {
        (sibling, current)
    }
}

/// The hash of the node above `current` and its `sibling`: the digest of
/// the two, the lesser first.
pub open spec fn merkle_parent(current: Seq<u8>, sibling: Seq<u8>) -> Seq<u8> {
    if lex_le(current, sibling) {
        keccak_hashv(current, sibling)
    } else {
        keccak_hashv(sibling, current)
    }
}

/// The root that a proof path leads to from a leaf: the leaf itself for the
/// empty path, else the parent of what the path before its last sibling
/// leads to and that sibling.
pub open spec fn merkle_root(proof: Seq<[u8; 32]>, leaf: Seq<u8>) -> Seq<u8>
    decreases proof.len(),
{
    if proof.len() == 0 {
        leaf
    } else {
        merkle_parent(merkle_root(proof.drop_last(), leaf), proof.last()@)
    }
}

/// Whether the proof path leads from the leaf to the root.
pub fn verify_proof(proof: Vec<[u8; 32]>, root: [u8; 32], leaf: [u8; 32]) -> (valid: bool)
    ensures
        valid == (merkle_root(proof@, leaf@) == root@),
{
    let mut computed_hash: [u8; 32] = leaf;
    let mut i: usize = 0;
    assert(proof@.take(0) =~= Seq::<[u8; 32]>::empty());
    while i < proof.len()
        invariant
            i <= proof.len(),
            computed_hash@ == merkle_root(proof@.take(i as int), leaf@),
        decreases proof.len() - i,
    {
        let (first, second) = sorted_pair(computed_hash, proof[i]);
        proof {
            let path = proof@.take(i + 1);
            assert(path.drop_last() =~= proof@.take(i as int));
            assert(path.last() == proof@[i as int]);
        }
        computed_hash = hashv(&first, &second);
        i += 1;
    }
    assert(proof@.take(i as int) =~= proof@);
    bytes_equal(&computed_hash, &root)
}

} // verus!
