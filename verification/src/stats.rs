//! The two measures of a tree, taken together.

use vstd::prelude::*;
use crate::binary_tree::BinaryTree;

verus! {

/// How many nodes a tree has and how deep it is.
pub struct BinaryTreeStats {
    pub size: u64,
    pub depth: u64,
}

/// Measures `tree`: the number of its nodes and the number of nodes on its
/// longest path from the root to a leaf.
pub fn get_tree_stats(tree: &BinaryTree) -> (stats: BinaryTreeStats)
    ensures
        stats.size == tree@.count(),
        stats.depth == tree@.height(),
{
    BinaryTreeStats { size: tree.size(), depth: tree.depth() }
}

} // verus!
