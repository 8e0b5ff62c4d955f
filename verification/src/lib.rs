//! An unbalanced binary search tree over `u64` keys.
//!
//! `shape` holds the mathematical model of a tree and the laws of insertion;
//! `binary_tree` holds the tree of linked nodes, whose operations are verified
//! against that model. Around them stand the pieces of a small benchmark:
//! `populate` fills a tree with random keys, `stats` measures it, `timing`
//! times one call of each operation, `decimal` writes numbers out, and
//! `report` lays out and renders the table of results.

pub mod shape;
pub mod binary_tree;
pub mod stats;
pub mod populate;
pub mod timing;
pub mod decimal;
pub mod report;
