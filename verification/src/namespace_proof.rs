//! The namespace proof object and the algorithm that checks it.
//!
//! A proof asserts that one namespace owns a contiguous run of the committed
//! tree's leaves, or that the tree holds none of that namespace. Checking
//! dispatches on the discriminant; the outcome is a [`NamespaceVerdict`],
//! which keeps a shape fault of the proof object apart from a check that
//! did not come out right.

use vstd::prelude::*;
use crate::hash::{Leaf, NamespacedHash};
use crate::merkle_path::{MerkleProof, MerkleProofView, path_matches, check_merkle_path};

verus! {

/// Whether the proof asserts that the namespace is populated or empty.
#[derive(Clone, Copy, Debug, PartialEq, Eq, Structural)]
pub enum NamespaceProofType {
    Presence,
    Absence,
}

/// A fault in the shape of the proof object itself, found before any digest
/// is recomputed: with such a proof the checks cannot even be run.
#[derive(Clone, Copy, Debug, PartialEq, Eq, Structural)]
pub enum ProofDefect {
    /// A per-leaf path proof carries no leaf value.
    MissingLeafElement,
    /// An absence proof inside the root's namespace range has no left
    /// boundary proof.
    MissingLeftBoundary,
    /// An absence proof inside the root's namespace range has no right
    /// boundary proof.
    MissingRightBoundary,
    /// The left boundary proof carries no leaf value.
    MissingLeftBoundaryElement,
    /// The right boundary proof carries no leaf value.
    MissingRightBoundaryElement,
    /// A left boundary proof was supplied although the namespace run starts
    /// at index zero, where no leaf can stand to the left.
    LeftBoundaryAtIndexZero,
}

/// What checking a proof can end in.
#[derive(Clone, Copy, Debug, PartialEq, Eq, Structural)]
pub enum NamespaceVerdict {
    /// Every check passed; the claim is accepted.
    Valid,
    /// The proof is well formed but some check failed: a path does not
    /// recompute the root, a namespace or an index is out of place.
    Invalid,
    /// The proof cannot even be evaluated; says which field is at fault.
    Malformed(ProofDefect),
}

/// A verifiable namespace proof.
///
/// For a presence proof, `proofs[i]` must open the leaf at index
/// `first_index + i` and every opened leaf must carry the target namespace;
/// each boundary proof must open the leaf next to the run on its side, or be
/// absent exactly when the target touches that end of the root's namespace
/// range. For an absence proof, the two boundary proofs must open two leaves
/// at consecutive indices whose namespaces enclose the target strictly.
#[derive(Clone, Debug)]
pub struct NaiveNamespaceProof {
    /// Presence or absence claim.
    pub proof_type: NamespaceProofType,
    /// One path proof per leaf of the namespace, ordered by leaf index;
    /// empty for absence proofs.
    pub proofs: Vec<MerkleProof>,
    /// Path proof for the last leaf before the namespace run.
    pub left_boundary_proof: Option<MerkleProof>,
    /// Path proof for the first leaf after the namespace run.
    pub right_boundary_proof: Option<MerkleProof>,
    /// Index of the first leaf of the namespace run.
    pub first_index: u64,
}

/// Mathematical image of a [`NaiveNamespaceProof`].
pub ghost struct NamespaceProofView {
    pub proof_type: NamespaceProofType,
    pub proofs: Seq<MerkleProofView>,
    pub left_boundary_proof: Option<MerkleProofView>,
    pub right_boundary_proof: Option<MerkleProofView>,
    pub first_index: u64,
}

impl View for NaiveNamespaceProof {
    type V = NamespaceProofView;

    open spec fn view(&self) -> NamespaceProofView {
        NamespaceProofView {
            proof_type: self.proof_type,
            proofs: self.proofs@.map_values(|p: MerkleProof| p@),
            left_boundary_proof: match self.left_boundary_proof {
                Some(p) => Some(p@),
                None => None,
            },
            right_boundary_proof: match self.right_boundary_proof {
                Some(p) => Some(p@),
                None => None,
            },
            first_index: self.first_index,
        }
    }
}

/// Verdict of the left boundary check of a presence proof. A boundary proof at
/// a run starting at index zero can name no leaf and is rejected as
/// malformed rather than let the expected index wrap around.
pub open spec fn spec_left_boundary(v: NamespaceProofView, root: NamespacedHash, namespace: u64) -> NamespaceVerdict {
    match v.left_boundary_proof {
        Some(bp) => if v.first_index == 0 {
            NamespaceVerdict::Malformed(ProofDefect::LeftBoundaryAtIndexZero)
        } else {
            match bp.elem {
                None => NamespaceVerdict::Malformed(ProofDefect::MissingLeftBoundaryElement),
                Some(e) => if e.namespace >= namespace || bp.index != v.first_index - 1 {
                    NamespaceVerdict::Invalid
                } else if !path_matches(root, bp.index as nat, bp) {
                    NamespaceVerdict::Invalid
                } else {
                    NamespaceVerdict::Valid
                },
            }
        },
        None => if root.min_namespace != namespace {
            NamespaceVerdict::Invalid
        } else {
            NamespaceVerdict::Valid
        },
    }
}

/// Verdict of the right boundary check of a presence proof.
pub open spec fn spec_right_boundary(v: NamespaceProofView, root: NamespacedHash, namespace: u64) -> NamespaceVerdict {
    match v.right_boundary_proof {
        Some(bp) => match bp.elem {
            None => NamespaceVerdict::Malformed(ProofDefect::MissingRightBoundaryElement),
            Some(e) => if e.namespace <= namespace || bp.index as int != v.first_index + v.proofs.len() {
                NamespaceVerdict::Invalid
            } else if !path_matches(root, bp.index as nat, bp) {
                NamespaceVerdict::Invalid
            } else {
                NamespaceVerdict::Valid
            },
        },
        None => if root.max_namespace != namespace {
            NamespaceVerdict::Invalid
        } else {
            NamespaceVerdict::Valid
        },
    }
}

/// Verdict of the per-leaf checks of a presence proof from entry `i` on:
/// each path must open a leaf of the target namespace at index
/// `first_index + i`, so consecutive entries open leaves at consecutive
/// indices, with no gap. An index beyond the largest representable one cannot
/// be in the tree.
pub open spec fn spec_presence_leaves(
    v: NamespaceProofView,
    root: NamespacedHash,
    namespace: u64,
    i: int,
) -> NamespaceVerdict
    decreases v.proofs.len() - i,
{
    if i < 0 || i >= v.proofs.len() {
        NamespaceVerdict::Valid
    } else {
        let p = v.proofs[i];
        if v.first_index + i > u64::MAX {
            NamespaceVerdict::Invalid
        } else {
            match p.elem {
                None => NamespaceVerdict::Malformed(ProofDefect::MissingLeafElement),
                Some(e) => if !path_matches(root, (v.first_index + i) as nat, p) {
                    NamespaceVerdict::Invalid
                } else if e.namespace != namespace {
                    NamespaceVerdict::Invalid
                } else {
                    spec_presence_leaves(v, root, namespace, i + 1)
                },
            }
        }
    }
}

/// Verdict of a presence proof: the per-leaf checks, then the left boundary,
/// then the right boundary; the first non-valid verdict is the result.
pub open spec fn spec_presence(v: NamespaceProofView, root: NamespacedHash, namespace: u64) -> NamespaceVerdict {
    let leaves = spec_presence_leaves(v, root, namespace, 0);
    if leaves != NamespaceVerdict::Valid {
        leaves
    } else {
        let left = spec_left_boundary(v, root, namespace);
        if left != NamespaceVerdict::Valid {
            left
        } else {
            spec_right_boundary(v, root, namespace)
        }
    }
}

/// Verdict of an absence proof. A target outside the root's namespace range is
/// absent by the root's own metadata; otherwise both boundary proofs are
/// mandatory, must open two leaves at consecutive indices whose namespaces enclose the
/// target strictly, and both must recompute the root.
pub open spec fn spec_absence(v: NamespaceProofView, root: NamespacedHash, namespace: u64) -> NamespaceVerdict {
    if namespace < root.min_namespace || namespace > root.max_namespace {
        NamespaceVerdict::Valid
    } else {
        match v.left_boundary_proof {
            None => NamespaceVerdict::Malformed(ProofDefect::MissingLeftBoundary),
            Some(lp) => match v.right_boundary_proof {
                None => NamespaceVerdict::Malformed(ProofDefect::MissingRightBoundary),
                Some(rp) => match lp.elem {
                    None => NamespaceVerdict::Malformed(ProofDefect::MissingLeftBoundaryElement),
                    Some(le) => match rp.elem {
                        None => NamespaceVerdict::Malformed(ProofDefect::MissingRightBoundaryElement),
                        Some(re) => if rp.index as int != lp.index + 1 {
                            NamespaceVerdict::Invalid
                        } else if namespace <= le.namespace || namespace >= re.namespace {
                            NamespaceVerdict::Invalid
                        } else if !path_matches(root, lp.index as nat, lp) {
                            NamespaceVerdict::Invalid
                        } else if !path_matches(root, rp.index as nat, rp) {
                            NamespaceVerdict::Invalid
                        } else {
                            NamespaceVerdict::Valid
                        },
                    },
                },
            },
        }
    }
}

/// Verdict of verification: dispatch on the proof's discriminant.
pub open spec fn spec_verify(v: NamespaceProofView, root: NamespacedHash, namespace: u64) -> NamespaceVerdict {
    match v.proof_type {
        NamespaceProofType::Presence => spec_presence(v, root, namespace),
        NamespaceProofType::Absence => spec_absence(v, root, namespace),
    }
}

impl NaiveNamespaceProof {
    /// The leaves this proof asserts belong to the namespace, ordered by
    /// leaf index: every leaf opened by `proofs` for a presence proof, none
    /// for an absence proof. A presence path without its leaf is a defect of
    /// the proof object, not an empty slot to pass over.
    pub fn get_namespace_leaves(&self) -> (r: Result<Vec<Leaf>, ProofDefect>)
        ensures
            self@.proof_type is Absence ==> (r matches Ok(l) && l@ == Seq::<Leaf>::empty()),
            self@.proof_type is Presence && (forall|i: int|
                0 <= i < self@.proofs.len() ==> self@.proofs[i].elem is Some) ==> (r matches Ok(l)
                && l@ == self@.proofs.map_values(|p: MerkleProofView| p.elem.unwrap())),
            self@.proof_type is Presence && (exists|i: int|
                0 <= i < self@.proofs.len() && self@.proofs[i].elem is None) ==> r == Err::<
                Vec<Leaf>,
                ProofDefect,
            >(ProofDefect::MissingLeafElement),
    {
        match self.proof_type {
            NamespaceProofType::Absence => Ok(Vec::new()),
            NamespaceProofType::Presence => {
                let mut out: Vec<Leaf> = Vec::new();
                let mut i: usize = 0;
                while i < self.proofs.len()
                    invariant
                        i <= self.proofs.len(),
                        self@.proof_type is Presence,
                        forall|j: int| 0 <= j < i ==> self@.proofs[j].elem is Some,
                        out@ == self@.proofs.subrange(0, i as int).map_values(
                            |p: MerkleProofView| p.elem.unwrap(),
                        ),
                    decreases self.proofs.len() - i,
                {
                    match &self.proofs[i].elem {
                        None => {
                            proof {
                                assert(self@.proofs[i as int].elem is None);
                            }
                            return Err(ProofDefect::MissingLeafElement);
                        },
                        Some(leaf) => {
                            out.push(*leaf);
                        },
                    }
                    i = i + 1;
                    proof {
                        assert(self@.proofs.subrange(0, i as int).map_values(
                            |p: MerkleProofView| p.elem.unwrap(),
                        ) =~= self@.proofs.subrange(0, i - 1).map_values(
                            |p: MerkleProofView| p.elem.unwrap(),
                        ).push(self@.proofs[i - 1].elem.unwrap()));
                    }
                }
                proof {
                    assert(self@.proofs.subrange(0, self@.proofs.len() as int) =~= self@.proofs);
                }
                Ok(out)
            },
        }
    }

    /// Verifies the proof against a committed root for a target namespace.
    /// Dispatches on the discriminant and returns the verdict that
    /// [`spec_verify`] defines.
    pub fn verify(&self, root: &NamespacedHash, namespace: u64) -> (r: NamespaceVerdict)
        ensures
            r == spec_verify(self@, *root, namespace),
    {
        match self.proof_type {
            NamespaceProofType::Presence => self.verify_presence_proof(root, namespace),
            NamespaceProofType::Absence => self.verify_absence_proof(root, namespace),
        }
    }

    /// Left boundary check: a present boundary proof must open the leaf just
    /// before the run with a strictly smaller namespace; an absent one is only
    /// allowed when the target is the tree's minimum namespace.
    fn verify_left_namespace_boundary(&self, root: &NamespacedHash, namespace: u64) -> (r: NamespaceVerdict)
        ensures
            r == spec_left_boundary(self@, *root, namespace),
    {
        match &self.left_boundary_proof {
            Some(bp) => {
                if self.first_index == 0 {
                    return NamespaceVerdict::Malformed(ProofDefect::LeftBoundaryAtIndexZero);
                }
                match &bp.elem {
                    None => NamespaceVerdict::Malformed(ProofDefect::MissingLeftBoundaryElement),
                    Some(e) => {
                        if e.namespace >= namespace || bp.index != self.first_index - 1 {
                            return NamespaceVerdict::Invalid;
                        }
                        match check_merkle_path(root, bp.index, bp) {
                            Ok(true) => NamespaceVerdict::Valid,
                            _ => NamespaceVerdict::Invalid,
                        }
                    },
                }
            },
            None => {
                if root.min_namespace != namespace {
                    NamespaceVerdict::Invalid
                } else {
                    NamespaceVerdict::Valid
                }
            },
        }
    }

    /// Right boundary check: a present boundary proof must open the leaf just
    /// after the run with a strictly larger namespace; an absent one is only
    /// allowed when the target is the tree's maximum namespace.
    fn verify_right_namespace_boundary(&self, root: &NamespacedHash, namespace: u64) -> (r: NamespaceVerdict)
        ensures
            r == spec_right_boundary(self@, *root, namespace),
    {
        match &self.right_boundary_proof {
            Some(bp) => match &bp.elem {
                None => NamespaceVerdict::Malformed(ProofDefect::MissingRightBoundaryElement),
                Some(e) => {
                    let expected = self.first_index.checked_add(self.proofs.len() as u64);
                    let index_ok = match expected {
                        Some(exp) => bp.index == exp,
                        None => false,
                    };
                    if e.namespace <= namespace || !index_ok {
                        return NamespaceVerdict::Invalid;
                    }
                    match check_merkle_path(root, bp.index, bp) {
                        Ok(true) => NamespaceVerdict::Valid,
                        _ => NamespaceVerdict::Invalid,
                    }
                },
            },
            None => {
                if root.max_namespace != namespace {
                    NamespaceVerdict::Invalid
                } else {
                    NamespaceVerdict::Valid
                }
            },
        }
    }

    /// Presence algorithm: checks every embedded path at its expected index,
    /// then both boundaries; the first non-valid verdict is returned.
    fn verify_presence_proof(&self, root: &NamespacedHash, namespace: u64) -> (r: NamespaceVerdict)
        ensures
            r == spec_presence(self@, *root, namespace),
    {
        let mut i: usize = 0;
        while i < self.proofs.len()
            invariant
                i <= self.proofs.len(),
                spec_presence_leaves(self@, *root, namespace, 0) == spec_presence_leaves(
                    self@,
                    *root,
                    namespace,
                    i as int,
                ),
            decreases self.proofs.len() - i,
        {
            let p = &self.proofs[i];
            let leaf_index: u64 = match self.first_index.checked_add(i as u64) {
                Some(idx) => idx,
                None => {
                    return NamespaceVerdict::Invalid;
                },
            };
            match check_merkle_path(root, leaf_index, p) {
                Err(d) => {
                    return NamespaceVerdict::Malformed(d);
                },
                Ok(false) => {
                    return NamespaceVerdict::Invalid;
                },
                Ok(true) => {},
            }
            match &p.elem {
                None => {
                    return NamespaceVerdict::Malformed(ProofDefect::MissingLeafElement);
                },
                Some(e) => {
                    if e.namespace != namespace {
                        return NamespaceVerdict::Invalid;
                    }
                },
            }
            i = i + 1;
        }
        let left = self.verify_left_namespace_boundary(root, namespace);
        match left {
            NamespaceVerdict::Valid => {},
            other => {
                return other;
            },
        }
        self.verify_right_namespace_boundary(root, namespace)
    }

    /// Absence algorithm: outside the root's range the claim holds by the
    /// root's metadata alone; inside it, two mandatory boundary proofs must
    /// open two leaves at consecutive indices whose namespaces enclose the
    /// target strictly, and both must recompute the root.
    fn verify_absence_proof(&self, root: &NamespacedHash, namespace: u64) -> (r: NamespaceVerdict)
        ensures
            r == spec_absence(self@, *root, namespace),
    {
        if namespace < root.min_namespace || namespace > root.max_namespace {
            return NamespaceVerdict::Valid;
        }
        let lp = match &self.left_boundary_proof {
            None => {
                return NamespaceVerdict::Malformed(ProofDefect::MissingLeftBoundary);
            },
            Some(lp) => lp,
        };
        let rp = match &self.right_boundary_proof {
            None => {
                return NamespaceVerdict::Malformed(ProofDefect::MissingRightBoundary);
            },
            Some(rp) => rp,
        };
        let left_ns: u64 = match &lp.elem {
            None => {
                return NamespaceVerdict::Malformed(ProofDefect::MissingLeftBoundaryElement);
            },
            Some(le) => le.namespace,
        };
        let right_ns: u64 = match &rp.elem {
            None => {
                return NamespaceVerdict::Malformed(ProofDefect::MissingRightBoundaryElement);
            },
            Some(re) => re.namespace,
        };
        let adjacent: bool = match lp.index.checked_add(1) {
            Some(next) => rp.index == next,
            None => false,
        };
        if !adjacent {
            return NamespaceVerdict::Invalid;
        }
        if namespace <= left_ns || namespace >= right_ns {
            return NamespaceVerdict::Invalid;
        }
        match check_merkle_path(root, lp.index, lp) {
            Ok(true) => {},
            _ => {
                return NamespaceVerdict::Invalid;
            },
        }
        match check_merkle_path(root, rp.index, rp) {
            Ok(true) => {},
            _ => {
                return NamespaceVerdict::Invalid;
            },
        }
        NamespaceVerdict::Valid
    }
}

} // verus!
