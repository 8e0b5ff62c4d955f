use bstree::binary_tree::BinaryTree;
use bstree::stats::get_tree_stats;

fn build(values: &[u64]) -> BinaryTree {
    let mut tree = BinaryTree::new();
    for v in values {
        tree.insert(*v);
    }
    tree
}

#[test]
fn empty_tree_has_nothing() {
    let tree = BinaryTree::new();
    assert_eq!(tree.size(), 0);
    assert_eq!(tree.depth(), 0);
    assert!(!tree.search(42));
    assert!(!tree.search(0));
}

#[test]
fn single_insert_gives_size_and_depth_one() {
    let mut tree = BinaryTree::new();
    tree.insert(7);
    assert_eq!(tree.size(), 1);
    assert_eq!(tree.depth(), 1);
    assert!(tree.search(7));
    assert!(!tree.search(6));
    assert!(!tree.search(8));
}

#[test]
fn five_keys_scenario() {
    let tree = build(&[50, 30, 70, 20, 40]);
    assert_eq!(tree.size(), 5);
    assert!(tree.search(40));
    assert!(!tree.search(41));
    assert!(tree.search(50));
    assert!(tree.search(20));
    assert!(tree.search(70));
    assert_eq!(tree.depth(), 3);
}

#[test]
fn size_counts_every_insert() {
    let mut tree = BinaryTree::new();
    for n in 0..200u64 {
        assert_eq!(tree.size(), n);
        tree.insert((n * 37) % 101);
    }
    assert_eq!(tree.size(), 200);
}

#[test]
fn duplicates_are_kept_and_go_right() {
    let tree = build(&[5, 5, 5, 5]);
    assert_eq!(tree.size(), 4);
    assert_eq!(tree.depth(), 4);
    assert!(tree.search(5));
    assert!(!tree.search(4));

    let tree = build(&[5, 3, 5]);
    assert_eq!(tree.size(), 3);
    assert_eq!(tree.depth(), 2);
}

#[test]
fn inserted_keys_are_found_and_others_are_not() {
    let keys: [u64; 8] = [40, 10, 90, 60, 20, 0, u64::MAX, 41];
    let tree = build(&keys);
    for k in keys {
        assert!(tree.search(k));
    }
    for k in [1u64, 11, 39, 42, 59, 61, 89, 91, u64::MAX - 1] {
        assert!(!tree.search(k));
    }
}

#[test]
fn insertion_order_changes_shape_not_content() {
    let first = build(&[5, 3, 8, 1, 4]);
    let second = build(&[5, 8, 3, 4, 1]);
    assert_eq!(first.size(), 5);
    assert_eq!(second.size(), 5);
    assert_eq!(first.depth(), 3);
    assert_eq!(second.depth(), 3);
    for k in [1u64, 3, 4, 5, 8] {
        assert!(first.search(k));
        assert!(second.search(k));
    }
    for k in [0u64, 2, 6, 7, 9] {
        assert!(!first.search(k));
        assert!(!second.search(k));
    }
    let chain = build(&[1, 3, 4, 5, 8]);
    assert_eq!(chain.size(), 5);
    assert_eq!(chain.depth(), 5);
}

#[test]
fn ascending_and_descending_runs_degrade_to_chains() {
    let up = build(&[1, 2, 3, 4, 5, 6]);
    assert_eq!(up.depth(), 6);
    let down = build(&[6, 5, 4, 3, 2, 1]);
    assert_eq!(down.depth(), 6);
    let balanced = build(&[4, 2, 6, 1, 3, 5, 7]);
    assert_eq!(balanced.size(), 7);
    assert_eq!(balanced.depth(), 3);
}

#[test]
fn depth_grows_by_at_most_one_per_insert() {
    let mut tree = BinaryTree::new();
    let mut last = tree.depth();
    for n in 0..300u64 {
        tree.insert((n * 7919) % 1009);
        let now = tree.depth();
        assert!(now == last || now == last + 1);
        last = now;
    }
}

#[test]
fn queries_repeat_their_answers() {
    let tree = build(&[9, 2, 14, 2, 11]);
    assert_eq!(tree.size(), tree.size());
    assert_eq!(tree.depth(), tree.depth());
    assert_eq!(tree.size(), 5);
    assert_eq!(tree.depth(), 3);
    assert_eq!(tree.search(11), tree.search(11));
}

#[test]
fn stats_report_size_and_depth() {
    let tree = build(&[50, 30, 70, 20, 40]);
    let stats = get_tree_stats(&tree);
    assert_eq!(stats.size, 5);
    assert_eq!(stats.depth, 3);
    let stats = get_tree_stats(&BinaryTree::new());
    assert_eq!(stats.size, 0);
    assert_eq!(stats.depth, 0);
}
