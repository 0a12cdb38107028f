//! Namespaced Merkle tree membership and non-membership checking.
//!
//! A namespaced Merkle tree commits to an ordered sequence of leaves sorted by
//! namespace; every node's digest carries the smallest and largest namespace
//! of its subtree. A [`namespace_proof::NaiveNamespaceProof`] asserts either
//! that one namespace owns exactly a contiguous run of leaves, or that the
//! tree holds no leaf of that namespace. Checking such an assertion ends in
//! one of the verdicts of [`namespace_proof::NamespaceVerdict`].

pub mod hash;
pub mod merkle_path;
pub mod namespace_proof;
pub mod laws;
