//! The tree itself: linked nodes, each owning up to two subtrees.

use vstd::prelude::*;
use crate::shape::Shape;

verus! {

/// One stored key with the subtrees below it.
struct Node {
    value: u64,
    left: Option<Box<Node>>,
    right: Option<Box<Node>>,
}

/// An unbalanced binary search tree of `u64` keys. Equal keys are kept, each
/// in a node of its own.
pub struct BinaryTree {
    root: Option<Box<Node>>,
}

/// The shape that a link and everything below it stand for.
spec fn shape_of(link: Option<Box<Node>>) -> Shape
    decreases link,
{
    match link {
        None => Shape::Empty,
        Some(node) => Shape::Fork(
            Box::new(shape_of(node.left)),
            node.value,
            Box::new(shape_of(node.right)),
        ),
    }
}

/// Hangs a new leaf with `value` below `link`, at the place the search order
/// gives it.
fn grow(link: &mut Option<Box<Node>>, value: u64)
    ensures
        shape_of(*final(link)) == shape_of(*old(link)).with(value),
    decreases *old(link),
{
    match link {
        None => {
            *link = Some(Box::new(Node { value, left: None, right: None }));
        },
        Some(node) => {
            if value < node.value {
                grow(&mut node.left, value);
            } else {
                grow(&mut node.right, value);
            }
        },
    }
}

/// Counts the nodes at and below `link`.
fn count_nodes(link: &Option<Box<Node>>) -> (n: u64)
    requires
        shape_of(*link).count() <= u64::MAX,
    ensures
        n == shape_of(*link).count(),
    decreases *link,
{
    match link {
        None => 0,
        Some(node) => {
            let below_left: u64 = count_nodes(&node.left);
            let below_right: u64 = count_nodes(&node.right);
            1 + below_left + below_right
        },
    }
}

/// Measures the longest path from `link` down to a leaf, in nodes.
fn measure(link: &Option<Box<Node>>) -> (d: u64)
    requires
        shape_of(*link).count() <= u64::MAX,
    ensures
        d == shape_of(*link).height(),
    decreases *link,
{
    match link {
        None => 0,
        Some(node) => {
            proof {
                shape_of(node.left).lemma_height_le_count();
                shape_of(node.right).lemma_height_le_count();
            }
            let below_left: u64 = measure(&node.left);
            let below_right: u64 = measure(&node.right);
            if below_left >= below_right {
                1 + below_left
            } else {
                1 + below_right
            }
        },
    }
}

impl View for BinaryTree {
    type V = Shape;

    closed spec fn view(&self) -> Shape {
        shape_of(self.root)
    }
}

impl BinaryTree {
    /// What holds of every tree: its keys stand in search order, and its
    /// nodes can be counted in a `u64`.
    #[verifier::type_invariant]
    pub(crate) open spec fn sound(&self) -> bool {
        &&& self@.ordered()
        &&& self@.count() <= u64::MAX
    }

    /// A tree with no node.
    pub fn new() -> (tree: BinaryTree)
        ensures
            tree@ == Shape::Empty,
            tree@.ordered(),
    {
        BinaryTree { root: None }
    }

    /// Adds `value` in a new leaf. Every node that was there stays where it
    /// was; a key equal to one already present goes to that node's right.
    /// The tree was in search order and still is.
    pub fn insert(&mut self, value: u64)
        requires
            old(self)@.count() < u64::MAX,
        ensures
            final(self)@ == old(self)@.with(value),
            final(self)@.ordered(),
            final(self)@.count() == old(self)@.count() + 1,
            final(self)@.holds(value),
            final(self)@.height() == old(self)@.height() || final(self)@.height() == old(
                self,
            )@.height() + 1,
            old(self)@ is Empty ==> final(self)@.height() == 1,
            final(self)@.height() == old(self)@.height() + 1 <==> old(self)@.landing_level(value)
                > old(self)@.height(),
            forall|w: u64| #[trigger]
                final(self)@.holds(w) <==> old(self)@.holds(w) || w == value,
    {
        proof {
            use_type_invariant(&*self);
            self@.lemma_with_ordered(value);
            self@.lemma_with_count(value);
            self@.lemma_with_occurrences(value, value);
            self@.lemma_with_height(value);
            self@.lemma_with_height_exact(value);
            assert forall|w: u64| #[trigger]
                self@.with(value).holds(w) <==> self@.holds(w) || w == value by {
                self@.lemma_with_occurrences(value, w);
            }
        }
        let mut held: Option<Box<Node>> = None;
        std::mem::swap(&mut self.root, &mut held);
        grow(&mut held, value);
        self.root = held;
    }

    /// Whether some node carries `value`.
    pub fn search(&self, value: u64) -> (found: bool)
        ensures
            found == self@.holds(value),
    {
        proof {
            use_type_invariant(self);
        }
        let mut at: &Option<Box<Node>> = &self.root;
        loop
            invariant
                shape_of(*at).ordered(),
                shape_of(*at).holds(value) == self@.holds(value),
            decreases shape_of(*at).count(),
        {
            match at {
                None => {
                    return false;
                },
                Some(node) => {
                    if value == node.value {
                        return true;
                    } else if value < node.value {
                        assert(shape_of(node.right).occurrences(value) == 0);
                        at = &node.left;
                    } else {
                        assert(shape_of(node.left).occurrences(value) == 0);
                        at = &node.right;
                    }
                },
            }
        }
    }

    /// The number of nodes: every insertion counts, equal keys too. The tree
    /// stays as it is, so asking again gives the same number.
    pub fn size(&self) -> (n: u64)
        ensures
            n == self@.count(),
    {
        proof {
            use_type_invariant(self);
        }
        count_nodes(&self.root)
    }

    /// The number of nodes on the longest path from the root to a leaf: 0 for
    /// the empty tree, 1 for a single node. The tree stays as it is, so
    /// asking again gives the same number.
    pub fn depth(&self) -> (d: u64)
        ensures
            d == self@.height(),
    {
        proof {
            use_type_invariant(self);
        }
        measure(&self.root)
    }
}

} // verus!
