use bstree::binary_tree::BinaryTree;
use bstree::populate::{populate_tree_rand, KEY_LIMIT};
use bstree::timing::calc_execution_times;

#[test]
fn populate_adds_one_key_less_than_the_count() {
    let mut tree = BinaryTree::new();
    populate_tree_rand(&mut tree, 100);
    assert_eq!(tree.size(), 99);
    populate_tree_rand(&mut tree, 11);
    assert_eq!(tree.size(), 109);
}

#[test]
fn populate_with_zero_or_one_adds_nothing() {
    let mut tree = BinaryTree::new();
    populate_tree_rand(&mut tree, 0);
    assert_eq!(tree.size(), 0);
    populate_tree_rand(&mut tree, 1);
    assert_eq!(tree.size(), 0);
    assert_eq!(tree.depth(), 0);
}

#[test]
fn populate_draws_keys_below_the_limit() {
    let mut tree = BinaryTree::new();
    populate_tree_rand(&mut tree, 2000);
    assert_eq!(tree.size(), 1999);
    assert!(!tree.search(KEY_LIMIT));
    assert!(!tree.search(KEY_LIMIT + 1));
    assert!(!tree.search(u64::MAX));
    let mut seen = 0;
    for k in 0..KEY_LIMIT {
        if tree.search(k) {
            seen += 1;
        }
    }
    assert!(seen >= 2);
    assert!(seen <= 1000);
}

#[test]
fn timing_inserts_the_key_after_the_size() {
    let mut tree = BinaryTree::new();
    for v in [50u64, 30, 70, 20, 40] {
        tree.insert(v);
    }
    assert!(!tree.search(6));
    let _times = calc_execution_times(&mut tree);
    assert_eq!(tree.size(), 6);
    assert!(tree.search(6));
    assert_eq!(tree.depth(), 4);
}

#[test]
fn timing_on_an_empty_tree_inserts_one() {
    let mut tree = BinaryTree::new();
    let times = calc_execution_times(&mut tree);
    assert_eq!(tree.size(), 1);
    assert_eq!(tree.depth(), 1);
    assert!(tree.search(1));
    assert!(times.insert < 20_000_000_000);
    assert!(times.size < 20_000_000_000);
}

#[test]
fn timing_leaves_other_keys_unfound_and_depth_within_one() {
    let mut tree = BinaryTree::new();
    for v in [50u64, 30, 70, 20, 40] {
        tree.insert(v);
    }
    let before = tree.depth();
    let _times = calc_execution_times(&mut tree);
    let after = tree.depth();
    assert!(after == before || after == before + 1);
    for w in [0u64, 5, 7, 21, 41, 69, 71, 1000] {
        assert!(!tree.search(w));
    }
    for w in [50u64, 30, 70, 20, 40, 6] {
        assert!(tree.search(w));
    }
}

#[test]
fn populate_keeps_old_keys_and_bounds_the_depth() {
    let mut tree = BinaryTree::new();
    tree.insert(5000);
    tree.insert(4000);
    let before = tree.depth();
    populate_tree_rand(&mut tree, 50);
    assert!(tree.search(5000));
    assert!(tree.search(4000));
    assert!(tree.depth() >= before);
    assert!(tree.depth() <= before + 49);
    assert_eq!(tree.size(), 51);
}
