use nmt_proof::hash::{hash_internal, hash_leaf, mix, Leaf, NamespacedHash};
use nmt_proof::merkle_path::MerkleProof;
use nmt_proof::namespace_proof::{
    NaiveNamespaceProof, NamespaceProofType, NamespaceVerdict, ProofDefect,
};

/// Padding node for unused slots: its namespace range is neutral for the
/// min/max aggregation, so padding never widens the root's range.
fn empty_node() -> NamespacedHash {
    NamespacedHash { digest: 0, min_namespace: u64::MAX, max_namespace: 0 }
}

fn leaf(namespace: u64, value: u64) -> Leaf {
    Leaf { namespace, value }
}

/// Builds every level of a complete binary tree over the leaves, padded with
/// empty nodes up to `slots` (a power of two). Level 0 is the leaf level.
fn build_levels(leaves: &[Leaf], slots: usize) -> Vec<Vec<NamespacedHash>> {
    let mut level: Vec<NamespacedHash> = leaves.iter().map(hash_leaf).collect();
    while level.len() < slots {
        level.push(empty_node());
    }
    let mut levels = vec![level];
    while levels.last().unwrap().len() > 1 {
        let prev = levels.last().unwrap().clone();
        let mut next = Vec::new();
        let mut i = 0;
        while i < prev.len() {
            next.push(hash_internal(&prev[i], &prev[i + 1]));
            i += 2;
        }
        levels.push(next);
    }
    levels
}

fn root_of(levels: &[Vec<NamespacedHash>]) -> NamespacedHash {
    *levels.last().unwrap().first().unwrap()
}

fn sibling_path(levels: &[Vec<NamespacedHash>], index: usize) -> Vec<NamespacedHash> {
    let mut siblings = Vec::new();
    let mut idx = index;
    for level in &levels[..levels.len() - 1] {
        siblings.push(level[idx ^ 1]);
        idx /= 2;
    }
    siblings
}

fn path_proof(leaves: &[Leaf], levels: &[Vec<NamespacedHash>], index: usize) -> MerkleProof {
    MerkleProof {
        index: index as u64,
        elem: Some(leaves[index]),
        siblings: sibling_path(levels, index),
    }
}

/// Leaves with namespaces [1, 1, 2, 2, 3] at indices 0..4, as three groups.
fn sorted_leaves() -> Vec<Leaf> {
    vec![leaf(1, 10), leaf(1, 11), leaf(2, 20), leaf(2, 21), leaf(3, 30)]
}

/// A correct presence proof for namespace 2 over `sorted_leaves`.
fn presence_proof_for_two(
    leaves: &[Leaf],
    levels: &[Vec<NamespacedHash>],
) -> NaiveNamespaceProof {
    NaiveNamespaceProof {
        proof_type: NamespaceProofType::Presence,
        proofs: vec![path_proof(leaves, levels, 2), path_proof(leaves, levels, 3)],
        left_boundary_proof: Some(path_proof(leaves, levels, 1)),
        right_boundary_proof: Some(path_proof(leaves, levels, 4)),
        first_index: 2,
    }
}

/// Leaves with namespaces [1, 1, 3, 3, 3]: namespace 2 is missing.
fn gapped_leaves() -> Vec<Leaf> {
    vec![leaf(1, 10), leaf(1, 11), leaf(3, 30), leaf(3, 31), leaf(3, 32)]
}

fn absence_proof_for_two(
    leaves: &[Leaf],
    levels: &[Vec<NamespacedHash>],
) -> NaiveNamespaceProof {
    NaiveNamespaceProof {
        proof_type: NamespaceProofType::Absence,
        proofs: vec![],
        left_boundary_proof: Some(path_proof(leaves, levels, 1)),
        right_boundary_proof: Some(path_proof(leaves, levels, 2)),
        first_index: 2,
    }
}

#[test]
fn mix_exact_value() {
    assert_eq!(mix(1, 2), 0x75536abd18f35369);
    assert_eq!(mix(0, 0), 0);
}

#[test]
fn leaf_hash_exact_value() {
    let h = hash_leaf(&leaf(7, 42));
    assert_eq!(h.digest, 0x6cc6d46e1b0cb294);
    assert_eq!(h.min_namespace, 7);
    assert_eq!(h.max_namespace, 7);
}

#[test]
fn internal_hash_aggregates_ranges() {
    let l = hash_leaf(&leaf(2, 0));
    let r = hash_leaf(&leaf(5, 0));
    let n = hash_internal(&l, &r);
    assert_eq!(n.min_namespace, 2);
    assert_eq!(n.max_namespace, 5);
    // order of the children matters for the digest
    let m = hash_internal(&r, &l);
    assert_ne!(n.digest, m.digest);
}

#[test]
fn root_range_covers_all_leaves() {
    let leaves = sorted_leaves();
    let levels = build_levels(&leaves, 8);
    let root = root_of(&levels);
    assert_eq!(root.min_namespace, 1);
    assert_eq!(root.max_namespace, 3);
}

#[test]
fn presence_round_trip() {
    let leaves = sorted_leaves();
    let levels = build_levels(&leaves, 8);
    let root = root_of(&levels);
    let pf = presence_proof_for_two(&leaves, &levels);
    assert_eq!(pf.verify(&root, 2), NamespaceVerdict::Valid);
    let got = pf.get_namespace_leaves().unwrap();
    assert_eq!(got, vec![leaf(2, 20), leaf(2, 21)]);
}

#[test]
fn presence_at_tree_minimum_without_left_boundary() {
    let leaves = sorted_leaves();
    let levels = build_levels(&leaves, 8);
    let root = root_of(&levels);
    let pf = NaiveNamespaceProof {
        proof_type: NamespaceProofType::Presence,
        proofs: vec![path_proof(&leaves, &levels, 0), path_proof(&leaves, &levels, 1)],
        left_boundary_proof: None,
        right_boundary_proof: Some(path_proof(&leaves, &levels, 2)),
        first_index: 0,
    };
    assert_eq!(pf.verify(&root, 1), NamespaceVerdict::Valid);
}

#[test]
fn presence_at_tree_maximum_without_right_boundary() {
    let leaves = sorted_leaves();
    let levels = build_levels(&leaves, 8);
    let root = root_of(&levels);
    let pf = NaiveNamespaceProof {
        proof_type: NamespaceProofType::Presence,
        proofs: vec![path_proof(&leaves, &levels, 4)],
        left_boundary_proof: Some(path_proof(&leaves, &levels, 3)),
        right_boundary_proof: None,
        first_index: 4,
    };
    assert_eq!(pf.verify(&root, 3), NamespaceVerdict::Valid);
}

#[test]
fn presence_missing_left_boundary_for_inner_namespace() {
    let leaves = sorted_leaves();
    let levels = build_levels(&leaves, 8);
    let root = root_of(&levels);
    let mut pf = presence_proof_for_two(&leaves, &levels);
    pf.left_boundary_proof = None;
    // namespace 2 is not the tree minimum, so the omitted boundary is invalid
    assert_eq!(pf.verify(&root, 2), NamespaceVerdict::Invalid);
}

#[test]
fn wrong_target_rejected() {
    let leaves = sorted_leaves();
    let levels = build_levels(&leaves, 8);
    let root = root_of(&levels);
    let pf = presence_proof_for_two(&leaves, &levels);
    assert_eq!(pf.verify(&root, 1), NamespaceVerdict::Invalid);
    assert_eq!(pf.verify(&root, 3), NamespaceVerdict::Invalid);
}

#[test]
fn tampered_sibling_digest_rejected() {
    let leaves = sorted_leaves();
    let levels = build_levels(&leaves, 8);
    let root = root_of(&levels);
    for path in 0..2 {
        for level in 0..3 {
            let mut pf = presence_proof_for_two(&leaves, &levels);
            pf.proofs[path].siblings[level].digest ^= 1;
            assert_eq!(pf.verify(&root, 2), NamespaceVerdict::Invalid);
        }
    }
    let mut pf = presence_proof_for_two(&leaves, &levels);
    pf.left_boundary_proof.as_mut().unwrap().siblings[0].digest ^= 1;
    assert_eq!(pf.verify(&root, 2), NamespaceVerdict::Invalid);
    let mut pf = presence_proof_for_two(&leaves, &levels);
    pf.right_boundary_proof.as_mut().unwrap().siblings[2].digest ^= 1;
    assert_eq!(pf.verify(&root, 2), NamespaceVerdict::Invalid);
}

#[test]
fn substituted_leaf_rejected() {
    let leaves = sorted_leaves();
    let levels = build_levels(&leaves, 8);
    let root = root_of(&levels);
    let mut pf = presence_proof_for_two(&leaves, &levels);
    pf.proofs[0].elem = Some(leaf(2, 999));
    assert_eq!(pf.verify(&root, 2), NamespaceVerdict::Invalid);
}

#[test]
fn presence_with_index_gap_rejected() {
    let leaves = sorted_leaves();
    let levels = build_levels(&leaves, 8);
    let root = root_of(&levels);
    // claims indices 2 and 3 but the second path opens the leaf at index 4
    let pf = NaiveNamespaceProof {
        proof_type: NamespaceProofType::Presence,
        proofs: vec![path_proof(&leaves, &levels, 2), path_proof(&leaves, &levels, 4)],
        left_boundary_proof: Some(path_proof(&leaves, &levels, 1)),
        right_boundary_proof: Some(path_proof(&leaves, &levels, 4)),
        first_index: 2,
    };
    assert_eq!(pf.verify(&root, 2), NamespaceVerdict::Invalid);
}

#[test]
fn left_boundary_not_strictly_below_rejected() {
    let leaves = sorted_leaves();
    let levels = build_levels(&leaves, 8);
    let root = root_of(&levels);
    let mut pf = presence_proof_for_two(&leaves, &levels);
    pf.left_boundary_proof.as_mut().unwrap().elem = Some(leaf(2, 11));
    assert_eq!(pf.verify(&root, 2), NamespaceVerdict::Invalid);
}

#[test]
fn right_boundary_not_strictly_above_rejected() {
    let leaves = sorted_leaves();
    let levels = build_levels(&leaves, 8);
    let root = root_of(&levels);
    let mut pf = presence_proof_for_two(&leaves, &levels);
    pf.right_boundary_proof.as_mut().unwrap().elem = Some(leaf(2, 30));
    assert_eq!(pf.verify(&root, 2), NamespaceVerdict::Invalid);
}

#[test]
fn absence_outside_root_range_needs_no_boundaries() {
    let leaves = sorted_leaves();
    let levels = build_levels(&leaves, 8);
    let root = root_of(&levels);
    let pf = NaiveNamespaceProof {
        proof_type: NamespaceProofType::Absence,
        proofs: vec![],
        left_boundary_proof: None,
        right_boundary_proof: None,
        first_index: 0,
    };
    assert_eq!(pf.verify(&root, 0), NamespaceVerdict::Valid);
    assert_eq!(pf.verify(&root, 9), NamespaceVerdict::Valid);
}

#[test]
fn absence_in_gap_accepted() {
    let leaves = gapped_leaves();
    let levels = build_levels(&leaves, 8);
    let root = root_of(&levels);
    let pf = absence_proof_for_two(&leaves, &levels);
    assert_eq!(pf.verify(&root, 2), NamespaceVerdict::Valid);
    let got = pf.get_namespace_leaves().unwrap();
    assert!(got.is_empty());
}

#[test]
fn absence_with_swapped_boundaries_rejected() {
    let leaves = gapped_leaves();
    let levels = build_levels(&leaves, 8);
    let root = root_of(&levels);
    let pf = NaiveNamespaceProof {
        proof_type: NamespaceProofType::Absence,
        proofs: vec![],
        left_boundary_proof: Some(path_proof(&leaves, &levels, 2)),
        right_boundary_proof: Some(path_proof(&leaves, &levels, 1)),
        first_index: 2,
    };
    assert_eq!(pf.verify(&root, 2), NamespaceVerdict::Invalid);
}

#[test]
fn absence_with_nonadjacent_boundaries_rejected() {
    let leaves = gapped_leaves();
    let levels = build_levels(&leaves, 8);
    let root = root_of(&levels);
    let pf = NaiveNamespaceProof {
        proof_type: NamespaceProofType::Absence,
        proofs: vec![],
        left_boundary_proof: Some(path_proof(&leaves, &levels, 1)),
        right_boundary_proof: Some(path_proof(&leaves, &levels, 3)),
        first_index: 2,
    };
    assert_eq!(pf.verify(&root, 2), NamespaceVerdict::Invalid);
}

#[test]
fn absence_boundary_not_bracketing_rejected() {
    let leaves = gapped_leaves();
    let levels = build_levels(&leaves, 8);
    let root = root_of(&levels);
    let mut pf = absence_proof_for_two(&leaves, &levels);
    pf.left_boundary_proof.as_mut().unwrap().elem = Some(leaf(2, 11));
    assert_eq!(pf.verify(&root, 2), NamespaceVerdict::Invalid);
    let mut pf = absence_proof_for_two(&leaves, &levels);
    pf.right_boundary_proof.as_mut().unwrap().elem = Some(leaf(2, 30));
    assert_eq!(pf.verify(&root, 2), NamespaceVerdict::Invalid);
}

#[test]
fn absence_with_tampered_boundary_path_rejected() {
    let leaves = gapped_leaves();
    let levels = build_levels(&leaves, 8);
    let root = root_of(&levels);
    let mut pf = absence_proof_for_two(&leaves, &levels);
    pf.left_boundary_proof.as_mut().unwrap().siblings[1].digest ^= 1;
    assert_eq!(pf.verify(&root, 2), NamespaceVerdict::Invalid);
    let mut pf = absence_proof_for_two(&leaves, &levels);
    pf.right_boundary_proof.as_mut().unwrap().siblings[0].digest ^= 1;
    assert_eq!(pf.verify(&root, 2), NamespaceVerdict::Invalid);
}

#[test]
fn absence_in_range_requires_both_boundaries() {
    let leaves = gapped_leaves();
    let levels = build_levels(&leaves, 8);
    let root = root_of(&levels);
    let mut pf = absence_proof_for_two(&leaves, &levels);
    pf.left_boundary_proof = None;
    assert_eq!(
        pf.verify(&root, 2),
        NamespaceVerdict::Malformed(ProofDefect::MissingLeftBoundary)
    );
    let mut pf = absence_proof_for_two(&leaves, &levels);
    pf.right_boundary_proof = None;
    assert_eq!(
        pf.verify(&root, 2),
        NamespaceVerdict::Malformed(ProofDefect::MissingRightBoundary)
    );
}

#[test]
fn absence_boundary_without_leaf_is_malformed() {
    let leaves = gapped_leaves();
    let levels = build_levels(&leaves, 8);
    let root = root_of(&levels);
    let mut pf = absence_proof_for_two(&leaves, &levels);
    pf.left_boundary_proof.as_mut().unwrap().elem = None;
    assert_eq!(
        pf.verify(&root, 2),
        NamespaceVerdict::Malformed(ProofDefect::MissingLeftBoundaryElement)
    );
    let mut pf = absence_proof_for_two(&leaves, &levels);
    pf.right_boundary_proof.as_mut().unwrap().elem = None;
    assert_eq!(
        pf.verify(&root, 2),
        NamespaceVerdict::Malformed(ProofDefect::MissingRightBoundaryElement)
    );
}

#[test]
fn presence_boundary_without_leaf_is_malformed() {
    let leaves = sorted_leaves();
    let levels = build_levels(&leaves, 8);
    let root = root_of(&levels);
    let mut pf = presence_proof_for_two(&leaves, &levels);
    pf.left_boundary_proof.as_mut().unwrap().elem = None;
    assert_eq!(
        pf.verify(&root, 2),
        NamespaceVerdict::Malformed(ProofDefect::MissingLeftBoundaryElement)
    );
    let mut pf = presence_proof_for_two(&leaves, &levels);
    pf.right_boundary_proof.as_mut().unwrap().elem = None;
    assert_eq!(
        pf.verify(&root, 2),
        NamespaceVerdict::Malformed(ProofDefect::MissingRightBoundaryElement)
    );
}

#[test]
fn presence_path_without_leaf_is_malformed() {
    let leaves = sorted_leaves();
    let levels = build_levels(&leaves, 8);
    let root = root_of(&levels);
    let mut pf = presence_proof_for_two(&leaves, &levels);
    pf.proofs[1].elem = None;
    assert_eq!(
        pf.verify(&root, 2),
        NamespaceVerdict::Malformed(ProofDefect::MissingLeafElement)
    );
    assert_eq!(
        pf.get_namespace_leaves(),
        Err(ProofDefect::MissingLeafElement)
    );
}

#[test]
fn left_boundary_at_index_zero_is_malformed() {
    let leaves = sorted_leaves();
    let levels = build_levels(&leaves, 8);
    let root = root_of(&levels);
    let pf = NaiveNamespaceProof {
        proof_type: NamespaceProofType::Presence,
        proofs: vec![path_proof(&leaves, &levels, 0), path_proof(&leaves, &levels, 1)],
        left_boundary_proof: Some(path_proof(&leaves, &levels, 0)),
        right_boundary_proof: Some(path_proof(&leaves, &levels, 2)),
        first_index: 0,
    };
    assert_eq!(
        pf.verify(&root, 1),
        NamespaceVerdict::Malformed(ProofDefect::LeftBoundaryAtIndexZero)
    );
}

#[test]
fn get_namespace_leaves_of_absence_is_empty() {
    let pf = NaiveNamespaceProof {
        proof_type: NamespaceProofType::Absence,
        proofs: vec![],
        left_boundary_proof: None,
        right_boundary_proof: None,
        first_index: 0,
    };
    assert_eq!(pf.get_namespace_leaves(), Ok(vec![]));
}
