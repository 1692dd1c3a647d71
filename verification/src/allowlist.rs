//! The allow-list verifier: a binary hash-accumulator membership check.
//!
//! A leaf is the Keccak-256 digest of the participant's identity. Verification
//! folds the sibling digests of the proof into the leaf, ordering each pair
//! lexicographically (smaller first) before hashing, and compares the folded
//! value with the published root. An all-zero root is a designed escape hatch
//! meaning "allow everyone": verification short-circuits to true.

use vstd::prelude::*;

use crate::bytes32::all_zero;
use crate::bytes32::bytes32_eq;
use crate::bytes32::is_zero32;
use crate::bytes32::lex_le;
use crate::bytes32::lex_le_bytes32;

verus! {

/// The Keccak-256 digest of a byte string. The digest is a function of the
/// bytes alone; what it is on given bytes the library never states.
pub uninterp spec fn keccak256(data: Seq<u8>) -> Seq<u8>;

/// Relies on `anchor_lang::solana_program::keccak::hashv`: the Keccak-256
/// digest of the concatenation of the input slices, 32 bytes wide and a
/// function of those bytes alone.
#[verifier::external_body]
pub(crate) fn keccak_leaf(owner: &[u8; 32]) -> (r: [u8; 32])
    ensures
        r@ == keccak256(owner@),
{
    anchor_lang::solana_program::keccak::hashv(&[owner.as_ref()]).0
}

/// Relies on `anchor_lang::solana_program::keccak::hashv`: the Keccak-256
/// digest of the concatenation of the input slices, 32 bytes wide and a
/// function of those bytes alone.
#[verifier::external_body]
fn keccak_pair(a: &[u8; 32], b: &[u8; 32]) -> (r: [u8; 32])
    ensures
        r@ == keccak256(a@ + b@),
{
    anchor_lang::solana_program::keccak::hashv(&[a.as_ref(), b.as_ref()]).0
}

/// The digest of a node pair, the lexicographically smaller half first. The
/// ordering makes the fold independent of left/right positioning.
pub open spec fn ordered_pair_hash(a: Seq<u8>, b: Seq<u8>) -> Seq<u8> {
    if lex_le(a, b) {
        keccak256(a + b)
    } else {
        keccak256(b + a)
    }
}

/// The value obtained by folding the sibling digests of `branch` into `leaf`,
/// one ordered pair hash per step.
pub open spec fn fold_merkle(leaf: Seq<u8>, branch: Seq<Seq<u8>>) -> Seq<u8>
    decreases branch.len(),
{
    if branch.len() == 0 {
        leaf
    } else {
        fold_merkle(ordered_pair_hash(leaf, branch[0]), branch.skip(1))
    }
}

/// Membership holds when the branch folds from the leaf back to the root —
/// or unconditionally under the all-zero root.
pub open spec fn merkle_verifies(root: Seq<u8>, leaf: Seq<u8>, branch: Seq<Seq<u8>>) -> bool {
    all_zero(root) || fold_merkle(leaf, branch) == root
}

/// The view of a proof: each 32-byte node as a byte string.
pub open spec fn branch_view(branch: Seq<[u8; 32]>) -> Seq<Seq<u8>> {
    branch.map_values(|n: [u8; 32]| n@)
}

/// Checks a membership proof against a published root.
pub fn verify_merkle(root: &[u8; 32], leaf: &[u8; 32], branch: &Vec<[u8; 32]>) -> (r: bool)
    ensures
        r == merkle_verifies(root@, leaf@, branch_view(branch@)),
{
    if is_zero32(root) {
        return true;
    }
    let ghost nodes: Seq<Seq<u8>> = branch_view(branch@);
    let mut computed: [u8; 32] = *leaf;
    let mut i: usize = 0;
    proof {
        assert(nodes.skip(0) =~= nodes);
    }
    while i < branch.len()
        invariant
            0 <= i <= branch@.len(),
            nodes == branch_view(branch@),
            fold_merkle(leaf@, nodes) == fold_merkle(computed@, nodes.skip(i as int)),
        decreases branch@.len() - i,
    {
        let node = &branch[i];
        proof {
            assert(nodes.skip(i as int)[0] == node@);
            assert(nodes.skip(i as int).skip(1) =~= nodes.skip(i as int + 1));
        }
        let next = if lex_le_bytes32(&computed, node) {
            keccak_pair(&computed, node)
        } else {
            keccak_pair(node, &computed)
        };
        proof {
            assert(next@ == ordered_pair_hash(computed@, node@));
        }
        computed = next;
        i += 1;
    }
    proof {
        assert(nodes.skip(i as int) =~= Seq::<Seq<u8>>::empty());
    }
    bytes32_eq(&computed, root)
}

} // verus!
