//! Laws of the verifier: declarative conditions that characterize exactly
//! when verification accepts, and consequences for tampered, mistargeted or
//! gapped proofs.

use vstd::prelude::*;
use crate::hash::NamespacedHash;
use crate::merkle_path::path_matches;
use crate::namespace_proof::{
    NamespaceProofView, NamespaceVerdict, spec_verify, spec_presence_leaves, spec_left_boundary,
    spec_right_boundary,
};

verus! {

/// Entry `i` of a presence proof passes its per-leaf checks: it opens a leaf
/// of the target namespace at leaf index `first_index + i`, so consecutive
/// entries open leaves at consecutive indices, with no gap.
pub open spec fn presence_entry_ok(
    v: NamespaceProofView,
    root: NamespacedHash,
    namespace: u64,
    i: int,
) -> bool {
    &&& v.first_index + i <= u64::MAX
    &&& v.proofs[i].elem matches Some(e) && e.namespace == namespace
    &&& path_matches(root, (v.first_index + i) as nat, v.proofs[i])
}

/// The left boundary of a presence proof is in order: a present boundary
/// proof opens the leaf just before the run with a strictly smaller
/// namespace; an absent one means the target is the tree's minimum namespace.
pub open spec fn left_boundary_ok(
    v: NamespaceProofView,
    root: NamespacedHash,
    namespace: u64,
) -> bool {
    match v.left_boundary_proof {
        Some(bp) => {
            &&& v.first_index > 0
            &&& bp.elem matches Some(e) && e.namespace < namespace
            &&& bp.index == v.first_index - 1
            &&& path_matches(root, bp.index as nat, bp)
        },
        None => root.min_namespace == namespace,
    }
}

/// The right boundary of a presence proof is in order: a present boundary
/// proof opens the leaf just after the run with a strictly larger namespace;
/// an absent one means the target is the tree's maximum namespace.
pub open spec fn right_boundary_ok(
    v: NamespaceProofView,
    root: NamespacedHash,
    namespace: u64,
) -> bool {
    match v.right_boundary_proof {
        Some(bp) => {
            &&& bp.elem matches Some(e) && e.namespace > namespace
            &&& bp.index as int == v.first_index + v.proofs.len()
            &&& path_matches(root, bp.index as nat, bp)
        },
        None => root.max_namespace == namespace,
    }
}

/// Every check a presence proof must pass: each embedded path opens a leaf of
/// the target namespace at its expected, contiguous index, and both
/// boundaries are in order.
pub open spec fn presence_accepted(
    v: NamespaceProofView,
    root: NamespacedHash,
    namespace: u64,
) -> bool {
    &&& forall|i: int| 0 <= i < v.proofs.len() ==> presence_entry_ok(v, root, namespace, i)
    &&& left_boundary_ok(v, root, namespace)
    &&& right_boundary_ok(v, root, namespace)
}

/// The two boundary proofs of an absence proof establish a gap at the target:
/// they open two leaves at consecutive indices whose namespaces enclose it
/// strictly, and both recompute the root.
pub open spec fn absence_gap_ok(
    v: NamespaceProofView,
    root: NamespacedHash,
    namespace: u64,
) -> bool {
    match (v.left_boundary_proof, v.right_boundary_proof) {
        (Some(lp), Some(rp)) => {
            &&& lp.elem matches Some(le) && le.namespace < namespace
            &&& rp.elem matches Some(re) && re.namespace > namespace
            &&& rp.index as int == lp.index + 1
            &&& path_matches(root, lp.index as nat, lp)
            &&& path_matches(root, rp.index as nat, rp)
        },
        _ => false,
    }
}

/// Every way an absence proof can be accepted: the target lies outside the
/// root's namespace range, or two consecutive committed leaves enclose it.
pub open spec fn absence_accepted(
    v: NamespaceProofView,
    root: NamespacedHash,
    namespace: u64,
) -> bool {
    ||| namespace < root.min_namespace
    ||| namespace > root.max_namespace
    ||| absence_gap_ok(v, root, namespace)
}

/// The per-leaf checks from entry `i` on pass exactly when every remaining
/// entry is in order.
pub proof fn lemma_presence_leaves_iff(
    v: NamespaceProofView,
    root: NamespacedHash,
    namespace: u64,
    i: int,
)
    requires
        0 <= i <= v.proofs.len(),
    ensures
        spec_presence_leaves(v, root, namespace, i) == NamespaceVerdict::Valid <==> (forall|j: int|
            i <= j < v.proofs.len() ==> presence_entry_ok(v, root, namespace, j)),
    decreases v.proofs.len() - i,
{
    if i < v.proofs.len() {
        lemma_presence_leaves_iff(v, root, namespace, i + 1);
        if spec_presence_leaves(v, root, namespace, i) == NamespaceVerdict::Valid {
            assert(presence_entry_ok(v, root, namespace, i));
            assert forall|j: int| i <= j < v.proofs.len() implies presence_entry_ok(
                v,
                root,
                namespace,
                j,
            ) by {
                if j != i {
                    assert(presence_entry_ok(v, root, namespace, j));
                }
            }
        } else {
            if forall|j: int| i <= j < v.proofs.len() ==> presence_entry_ok(v, root, namespace, j) {
                assert(presence_entry_ok(v, root, namespace, i));
                assert(forall|j: int|
                    i + 1 <= j < v.proofs.len() ==> presence_entry_ok(v, root, namespace, j));
                assert(spec_presence_leaves(v, root, namespace, i + 1) == NamespaceVerdict::Valid);
                assert(false);
            }
        }
    }
}

/// The left boundary check passes exactly when the boundary is in order.
pub proof fn lemma_left_boundary_iff(v: NamespaceProofView, root: NamespacedHash, namespace: u64)
    ensures
        spec_left_boundary(v, root, namespace) == NamespaceVerdict::Valid <==> left_boundary_ok(
            v,
            root,
            namespace,
        ),
{
}

/// The right boundary check passes exactly when the boundary is in order.
pub proof fn lemma_right_boundary_iff(v: NamespaceProofView, root: NamespacedHash, namespace: u64)
    ensures
        spec_right_boundary(v, root, namespace) == NamespaceVerdict::Valid <==> right_boundary_ok(
            v,
            root,
            namespace,
        ),
{
}

/// A presence proof verifies as valid exactly when every embedded path opens
/// a leaf of the target namespace at its contiguous index and both boundaries
/// are in order.
pub proof fn lemma_presence_valid_iff(v: NamespaceProofView, root: NamespacedHash, namespace: u64)
    requires
        v.proof_type is Presence,
    ensures
        spec_verify(v, root, namespace) == NamespaceVerdict::Valid <==> presence_accepted(
            v,
            root,
            namespace,
        ),
{
    lemma_presence_leaves_iff(v, root, namespace, 0);
    lemma_left_boundary_iff(v, root, namespace);
    lemma_right_boundary_iff(v, root, namespace);
}

/// An absence proof verifies as valid exactly when the target lies outside
/// the root's namespace range or two consecutive committed leaves enclose it.
pub proof fn lemma_absence_valid_iff(v: NamespaceProofView, root: NamespacedHash, namespace: u64)
    requires
        v.proof_type is Absence,
    ensures
        spec_verify(v, root, namespace) == NamespaceVerdict::Valid <==> absence_accepted(
            v,
            root,
            namespace,
        ),
{
}

/// Verifying a non-empty presence proof against any target other than the one
/// it was built for is rejected as invalid: the first opened leaf already
/// carries the wrong namespace.
pub proof fn lemma_wrong_target_rejected(
    v: NamespaceProofView,
    root: NamespacedHash,
    namespace: u64,
    other: u64,
)
    requires
        v.proof_type is Presence,
        presence_accepted(v, root, namespace),
        v.proofs.len() > 0,
        other != namespace,
    ensures
        spec_verify(v, root, other) == NamespaceVerdict::Invalid,
{
    assert(presence_entry_ok(v, root, namespace, 0));
    assert(spec_presence_leaves(v, root, other, 0) == NamespaceVerdict::Invalid);
}

/// A left boundary leaf whose namespace is not strictly below the target
/// makes a presence proof invalid, once the per-leaf checks pass.
pub proof fn lemma_left_boundary_strictness(
    v: NamespaceProofView,
    root: NamespacedHash,
    namespace: u64,
)
    requires
        v.proof_type is Presence,
        forall|i: int| 0 <= i < v.proofs.len() ==> presence_entry_ok(v, root, namespace, i),
        v.first_index > 0,
        v.left_boundary_proof matches Some(bp) && bp.elem matches Some(e) && e.namespace
            >= namespace,
    ensures
        spec_verify(v, root, namespace) == NamespaceVerdict::Invalid,
{
    lemma_presence_leaves_iff(v, root, namespace, 0);
}

/// A right boundary leaf whose namespace is not strictly above the target
/// makes a presence proof invalid, once the per-leaf checks pass and the left
/// boundary proof is shaped well enough to be checked at all.
pub proof fn lemma_right_boundary_strictness(
    v: NamespaceProofView,
    root: NamespacedHash,
    namespace: u64,
)
    requires
        v.proof_type is Presence,
        forall|i: int| 0 <= i < v.proofs.len() ==> presence_entry_ok(v, root, namespace, i),
        v.left_boundary_proof matches Some(bp) ==> v.first_index > 0 && bp.elem is Some,
        v.right_boundary_proof matches Some(bp) && bp.elem matches Some(e) && e.namespace
            <= namespace,
    ensures
        spec_verify(v, root, namespace) == NamespaceVerdict::Invalid,
{
    lemma_presence_leaves_iff(v, root, namespace, 0);
}

/// Absence boundary leaves whose namespaces do not strictly enclose the
/// target make an in-range absence proof invalid.
pub proof fn lemma_absence_boundary_strictness(
    v: NamespaceProofView,
    root: NamespacedHash,
    namespace: u64,
)
    requires
        v.proof_type is Absence,
        root.min_namespace <= namespace <= root.max_namespace,
        v.left_boundary_proof matches Some(lp) && v.right_boundary_proof matches Some(rp)
            && lp.elem matches Some(le) && rp.elem matches Some(re) && (namespace <= le.namespace
            || namespace >= re.namespace),
    ensures
        spec_verify(v, root, namespace) == NamespaceVerdict::Invalid,
{
}

/// Absence boundary leaves at indices that are not consecutive make an
/// in-range absence proof invalid: some other leaf might stand between them.
pub proof fn lemma_absence_adjacency(v: NamespaceProofView, root: NamespacedHash, namespace: u64)
    requires
        v.proof_type is Absence,
        root.min_namespace <= namespace <= root.max_namespace,
        v.left_boundary_proof matches Some(lp) && v.right_boundary_proof matches Some(rp)
            && lp.elem is Some && rp.elem is Some && rp.index as int != lp.index + 1,
    ensures
        spec_verify(v, root, namespace) == NamespaceVerdict::Invalid,
{
}

/// A valid presence verdict binds every embedded path to the root: each one
/// opens a leaf of the target namespace and recomputes the root at its
/// contiguous index. A proof in which any sibling digest or leaf namespace no
/// longer recomputes the root therefore cannot verify as valid.
pub proof fn lemma_valid_presence_binds_paths(
    v: NamespaceProofView,
    root: NamespacedHash,
    namespace: u64,
    i: int,
)
    requires
        v.proof_type is Presence,
        spec_verify(v, root, namespace) == NamespaceVerdict::Valid,
        0 <= i < v.proofs.len(),
    ensures
        path_matches(root, (v.first_index + i) as nat, v.proofs[i]),
        v.proofs[i].elem matches Some(e) && e.namespace == namespace,
    {
    lemma_presence_valid_iff(v, root, namespace);
    assert(presence_entry_ok(v, root, namespace, i));
}

/// A valid in-range absence verdict binds both boundary paths to the root and
/// pins the gap: consecutive indices, namespaces strictly enclosing the target.
pub proof fn lemma_valid_absence_binds_boundaries(
    v: NamespaceProofView,
    root: NamespacedHash,
    namespace: u64,
)
    requires
        v.proof_type is Absence,
        spec_verify(v, root, namespace) == NamespaceVerdict::Valid,
        root.min_namespace <= namespace <= root.max_namespace,
    ensures
        absence_gap_ok(v, root, namespace),
{
    lemma_absence_valid_iff(v, root, namespace);
}

} // verus!

