//! Single-path Merkle verification against a namespaced root.
//!
//! A path proof binds a leaf index, an optional leaf value, and the sibling
//! digests needed to recompute the path from the leaf to the root. The index's
//! binary digits, least significant first, say on which side the current node
//! stands at each level.

use vstd::prelude::*;
use crate::hash::{Leaf, NamespacedHash, spec_leaf_hash, spec_node_hash, hash_leaf, hash_internal};
use crate::namespace_proof::ProofDefect;

verus! {

/// A path proof: a leaf index, the leaf value when the proof carries one, and
/// the sibling digests from the leaf's level up to just below the root.
#[derive(Clone, Debug)]
pub struct MerkleProof {
    /// Index of the leaf this path starts from.
    pub index: u64,
    /// The leaf value; a path without its leaf cannot be checked here.
    pub elem: Option<Leaf>,
    /// Sibling digests, one per level, leaf level first.
    pub siblings: Vec<NamespacedHash>,
}

/// Mathematical image of a [`MerkleProof`].
pub ghost struct MerkleProofView {
    pub index: u64,
    pub elem: Option<Leaf>,
    pub siblings: Seq<NamespacedHash>,
}

impl View for MerkleProof {
    type V = MerkleProofView;

    open spec fn view(&self) -> MerkleProofView {
        MerkleProofView { index: self.index, elem: self.elem, siblings: self.siblings@ }
    }
}

/// Root reached by starting from `start` at position `index` of its level and
/// absorbing the `siblings` in order, one level per entry.
pub open spec fn spec_path_root(start: NamespacedHash, index: nat, siblings: Seq<NamespacedHash>) -> NamespacedHash
    decreases siblings.len(),
{
    if siblings.len() == 0 {
        start
    } else {
        let next = if index % 2 == 0 {
            spec_node_hash(start, siblings[0])
        } else {
            spec_node_hash(siblings[0], start)
        };
        spec_path_root(next, index / 2, siblings.subrange(1, siblings.len() as int))
    }
}

/// A path proof carries its leaf and recomputes exactly `root` when walked
/// from position `index`.
pub open spec fn path_matches(root: NamespacedHash, index: nat, p: MerkleProofView) -> bool {
    &&& p.elem is Some
    &&& spec_path_root(spec_leaf_hash(p.elem.unwrap()), index, p.siblings) == root
}

/// What [`check_merkle_path`] returns: a defect when the path has no leaf to
/// hash, otherwise whether the recomputed root equals the given one.
pub open spec fn spec_check_path(root: NamespacedHash, index: u64, p: MerkleProofView) -> Result<bool, ProofDefect> {
    match p.elem {
        None => Err(ProofDefect::MissingLeafElement),
        Some(_) => Ok(path_matches(root, index as nat, p)),
    }
}

/// Recomputes the root from `start` and the sibling digests.
fn compute_path_root(start: NamespacedHash, index: u64, siblings: &Vec<NamespacedHash>) -> (r: NamespacedHash)
    ensures
        r == spec_path_root(start, index as nat, siblings@),
{
    let mut acc = start;
    let mut pos: u64 = index;
    let mut i: usize = 0;
    proof {
        assert(siblings@.subrange(0, siblings@.len() as int) =~= siblings@);
    }
    while i < siblings.len()
        invariant
            i <= siblings.len(),
            spec_path_root(start, index as nat, siblings@) == spec_path_root(
                acc,
                pos as nat,
                siblings@.subrange(i as int, siblings@.len() as int),
            ),
        decreases siblings.len() - i,
    {
        let ghost rest = siblings@.subrange(i as int, siblings@.len() as int);
        proof {
            assert(rest[0] == siblings@[i as int]);
            assert(rest.subrange(1, rest.len() as int) == siblings@.subrange(
                i as int + 1,
                siblings@.len() as int,
            ));
        }
        let sib: NamespacedHash = siblings[i];
        acc = if pos % 2 == 0 {
            hash_internal(&acc, &sib)
        } else {
            hash_internal(&sib, &acc)
        };
        pos = pos / 2;
        i = i + 1;
    }
    proof {
        assert(siblings@.subrange(siblings@.len() as int, siblings@.len() as int) =~= Seq::<
            NamespacedHash,
        >::empty());
    }
    acc
}

/// Checks one path proof against `root` at position `index`. The proof's own
/// `index` field plays no part here; callers compare it where the algorithm
/// calls for it. A path without its leaf is reported as a defect, never a panic.
pub fn check_merkle_path(root: &NamespacedHash, index: u64, p: &MerkleProof) -> (r: Result<bool, ProofDefect>)
    ensures
        r == spec_check_path(*root, index, p@),
{
    match &p.elem {
        None => Err(ProofDefect::MissingLeafElement),
        Some(leaf) => {
            let start = hash_leaf(leaf);
            let computed = compute_path_root(start, index, &p.siblings);
            Ok(computed == *root)
        },
    }
}

} // verus!
