//! Leaves, namespaced digests, and the digest-combining function.
//!
//! Every node of the committed tree carries a digest together with the minimum
//! and maximum namespace found among the leaves of its subtree; a leaf's range
//! is the single namespace it belongs to.

use vstd::prelude::*;

verus! {

/// A committed leaf: an application payload tagged with the namespace it
/// belongs to. Leaves of a committed tree are sorted by namespace.
#[derive(Clone, Copy, Debug, PartialEq, Eq, Structural)]
pub struct Leaf {
    /// Namespace the leaf belongs to.
    pub namespace: u64,
    /// The application payload carried by the leaf.
    pub value: u64,
}

/// A node digest paired with the namespace range `[min_namespace,
/// max_namespace]` spanned by the leaves of the node's subtree. On the root it
/// describes the namespace span of the whole tree.
#[derive(Clone, Copy, Debug, PartialEq, Eq, Structural)]
pub struct NamespacedHash {
    pub digest: u64,
    pub min_namespace: u64,
    pub max_namespace: u64,
}

/// Domain separator mixed into every leaf digest.
pub const LEAF_DOMAIN: u64 = 0x6c656166;

/// Domain separator mixed into every internal-node digest.
pub const NODE_DOMAIN: u64 = 0x6e6f6465;

/// One mixing step of the digest: folds `x` into the accumulator `acc`.
/// The step is not symmetric in its arguments, so sibling order matters.
/// Opaque: no caller's proof depends on the formula, only on the value.
#[verifier::opaque]
pub open spec fn spec_mix(acc: u64, x: u64) -> u64 {
    let a: u64 = acc.wrapping_mul(0x9e3779b97f4a7c15);
    let b: u64 = x.wrapping_mul(0xc2b2ae3d27d4eb4f);
    let y: u64 = a ^ b;
    (y ^ (y >> 31u64)).wrapping_mul(0xff51afd7ed558ccd)
}

/// Executable digest-mixing step.
pub fn mix(acc: u64, x: u64) -> (r: u64)
    ensures
        r == spec_mix(acc, x),
{
    proof {
        reveal(spec_mix);
    }
    let a: u64 = acc.wrapping_mul(0x9e3779b97f4a7c15);
    let b: u64 = x.wrapping_mul(0xc2b2ae3d27d4eb4f);
    let y: u64 = a ^ b;
    (y ^ (y >> 31u64)).wrapping_mul(0xff51afd7ed558ccd)
}

/// Digest of a leaf: both namespace bounds equal the leaf's own namespace.
pub open spec fn spec_leaf_hash(leaf: Leaf) -> NamespacedHash {
    NamespacedHash {
        digest: spec_mix(spec_mix(LEAF_DOMAIN, leaf.namespace), leaf.value),
        min_namespace: leaf.namespace,
        max_namespace: leaf.namespace,
    }
}

/// Digest of an internal node: binds both children's digests and namespace
/// bounds, and aggregates the children's namespace ranges.
pub open spec fn spec_node_hash(l: NamespacedHash, r: NamespacedHash) -> NamespacedHash {
    NamespacedHash {
        digest: spec_mix(
            spec_mix(
                spec_mix(
                    spec_mix(spec_mix(spec_mix(NODE_DOMAIN, l.digest), l.min_namespace), l.max_namespace),
                    r.digest,
                ),
                r.min_namespace,
            ),
            r.max_namespace,
        ),
        min_namespace: if l.min_namespace <= r.min_namespace {
            l.min_namespace
        } else {
            r.min_namespace
        },
        max_namespace: if l.max_namespace >= r.max_namespace {
            l.max_namespace
        } else {
            r.max_namespace
        },
    }
}

/// Computes the namespaced digest of a leaf.
pub fn hash_leaf(leaf: &Leaf) -> (r: NamespacedHash)
    ensures
        r == spec_leaf_hash(*leaf),
{
    NamespacedHash {
        digest: mix(mix(LEAF_DOMAIN, leaf.namespace), leaf.value),
        min_namespace: leaf.namespace,
        max_namespace: leaf.namespace,
    }
}

/// Computes the namespaced digest of an internal node from its two children.
pub fn hash_internal(l: &NamespacedHash, r: &NamespacedHash) -> (out: NamespacedHash)
    ensures
        out == spec_node_hash(*l, *r),
{
    let d1: u64 = mix(NODE_DOMAIN, l.digest);
    let d2: u64 = mix(d1, l.min_namespace);
    let d3: u64 = mix(d2, l.max_namespace);
    let d4: u64 = mix(d3, r.digest);
    let d5: u64 = mix(d4, r.min_namespace);
    let d6: u64 = mix(d5, r.max_namespace);
    NamespacedHash {
        digest: d6,
        min_namespace: if l.min_namespace <= r.min_namespace {
            l.min_namespace
        } else {
            r.min_namespace
        },
        max_namespace: if l.max_namespace >= r.max_namespace {
            l.max_namespace
        } else {
            r.max_namespace
        },
    }
}

} // verus!
