//! The mathematical model of a search tree: its shape, what it holds, and
//! how one more key changes it.

use vstd::prelude::*;

verus! {

/// The shape of a binary tree of keys. It exists only in specifications.
pub enum Shape {
    /// No node at all.
    Empty,
    /// A node with its left subtree, its key and its right subtree.
    Fork(Box<Shape>, u64, Box<Shape>),
}

impl Shape {
    /// The number of nodes.
    pub open spec fn count(self) -> nat
        decreases self,
    {
        match self {
            Shape::Empty => 0,
            Shape::Fork(l, _, r) => 1 + l.count() + r.count(),
        }
    }

    /// The number of nodes on the longest path from the root down to a leaf.
    pub open spec fn height(self) -> nat
        decreases self,
    {
        match self {
            Shape::Empty => 0,
            Shape::Fork(l, _, r) => if l.height() >= r.height() {
                1 + l.height()
            } else {
                1 + r.height()
            },
        }
    }

    /// How many nodes carry the key `v`.
    pub open spec fn occurrences(self, v: u64) -> nat
        decreases self,
    {
        match self {
            Shape::Empty => 0,
            Shape::Fork(l, x, r) => l.occurrences(v) + r.occurrences(v) + if x == v {
                1nat
            } else {
                0nat
            },
        }
    }

    /// Whether some node carries the key `v`.
    pub open spec fn holds(self, v: u64) -> bool {
        self.occurrences(v) > 0
    }

    /// The search order: at every node, each key to the left is strictly
    /// smaller than the node's key, and each key to the right is at least
    /// as large.
    pub open spec fn ordered(self) -> bool
        decreases self,
    {
        match self {
            Shape::Empty => true,
            Shape::Fork(l, x, r) => {
                &&& l.ordered()
                &&& r.ordered()
                &&& forall|w: u64| #[trigger] l.occurrences(w) > 0 ==> w < x
                &&& forall|w: u64| #[trigger] r.occurrences(w) > 0 ==> w >= x
            },
        }
    }

    /// The shape after `v` has been added: a new leaf hangs where the descent
    /// from the root (left when `v` is smaller than the key met, right
    /// otherwise) first finds no node. Nothing else moves.
    pub open spec fn with(self, v: u64) -> Shape
        decreases self,
    {
        match self {
            Shape::Empty => Shape::Fork(Box::new(Shape::Empty), v, Box::new(Shape::Empty)),
            Shape::Fork(l, x, r) => if v < x {
                Shape::Fork(Box::new(l.with(v)), x, r)
            } else {
                Shape::Fork(l, x, Box::new(r.with(v)))
            },
        }
    }

    /// The level on which the leaf for `v` would hang, the root's level
    /// being 1.
    pub open spec fn landing_level(self, v: u64) -> nat
        decreases self,
    {
        match self {
            Shape::Empty => 1,
            Shape::Fork(l, x, r) => if v < x {
                1 + l.landing_level(v)
            } else {
                1 + r.landing_level(v)
            },
        }
    }

    /// The shape after the keys of `vs` have been added one by one, first
    /// to last.
    pub open spec fn with_all(self, vs: Seq<u64>) -> Shape
        decreases vs.len(),
    {
        if vs.len() == 0 {
            self
        } else {
            self.with_all(vs.drop_last()).with(vs.last())
        }
    }

    /// Adding a key adds exactly one node.
    pub proof fn lemma_with_count(self, v: u64)
        ensures
            self.with(v).count() == self.count() + 1,
        decreases self,
    {
        match self {
            Shape::Empty => {},
            Shape::Fork(l, x, r) => {
                l.lemma_with_count(v);
                r.lemma_with_count(v);
            },
        }
    }

    /// Adding a key adds one occurrence of that key and none of any other.
    pub proof fn lemma_with_occurrences(self, v: u64, w: u64)
        ensures
            self.with(v).occurrences(w) == self.occurrences(w) + if w == v {
                1nat
            } else {
                0nat
            },
        decreases self,
    {
        match self {
            Shape::Empty => {},
            Shape::Fork(l, x, r) => {
                l.lemma_with_occurrences(v, w);
                r.lemma_with_occurrences(v, w);
            },
        }
    }

    /// Adding a key keeps the search order.
    pub proof fn lemma_with_ordered(self, v: u64)
        requires
            self.ordered(),
        ensures
            self.with(v).ordered(),
        decreases self,
    {
        match self {
            Shape::Empty => {},
            Shape::Fork(l, x, r) => {
                l.lemma_with_ordered(v);
                r.lemma_with_ordered(v);
                if v < x {
                    assert forall|w: u64| #[trigger] l.with(v).occurrences(w) > 0 implies w < x by {
                        l.lemma_with_occurrences(v, w);
                    }
                } else {
                    assert forall|w: u64| #[trigger]
                        r.with(v).occurrences(w) > 0 implies w >= x by {
                        r.lemma_with_occurrences(v, w);
                    }
                }
            },
        }
    }

    /// Adding a key leaves the height as it was or raises it by exactly one;
    /// the first key raises it from 0 to 1.
    pub proof fn lemma_with_height(self, v: u64)
        ensures
            self.with(v).height() == self.height() || self.with(v).height() == self.height() + 1,
            self is Empty ==> self.with(v).height() == 1,
        decreases self,
    {
        match self {
            Shape::Empty => {},
            Shape::Fork(l, x, r) => {
                l.lemma_with_height(v);
                r.lemma_with_height(v);
            },
        }
    }

    /// The new leaf hangs at most one level below the deepest node, and the
    /// height grows exactly when it hangs below every node there was.
    pub proof fn lemma_with_height_exact(self, v: u64)
        ensures
            self.landing_level(v) <= self.height() + 1,
            self.with(v).height() == if self.landing_level(v) > self.height() {
                self.height() + 1
            } else {
                self.height()
            },
        decreases self,
    {
        match self {
            Shape::Empty => {},
            Shape::Fork(l, x, r) => {
                l.lemma_with_height_exact(v);
                r.lemma_with_height_exact(v);
            },
        }
    }

    /// The height never exceeds the number of nodes.
    pub proof fn lemma_height_le_count(self)
        ensures
            self.height() <= self.count(),
        decreases self,
    {
        match self {
            Shape::Empty => {},
            Shape::Fork(l, x, r) => {
                l.lemma_height_le_count();
                r.lemma_height_le_count();
            },
        }
    }

    /// After any sequence of additions: there is one node more for each key
    /// added (equal keys counted each time), a key occurs as often as it did
    /// before plus the number of times it was added, and a shape that was in
    /// search order still is.
    pub proof fn lemma_with_all(self, vs: Seq<u64>)
        ensures
            self.with_all(vs).count() == self.count() + vs.len(),
            forall|w: u64|
                self.with_all(vs).occurrences(w) == self.occurrences(w) + #[trigger] vs.to_multiset().count(w),
            forall|w: u64| #[trigger]
                self.with_all(vs).holds(w) <==> self.holds(w) || vs.contains(w),
            self.ordered() ==> self.with_all(vs).ordered(),
        decreases vs.len(),
    {
        broadcast use vstd::seq_lib::group_to_multiset_ensures;
        assert forall|w: u64| vs.contains(w) <==> #[trigger] vs.to_multiset().count(w) > 0 by {
            vstd::seq_lib::to_multiset_contains(vs, w);
        }
        if vs.len() == 0 {
            assert(vs =~= Seq::<u64>::empty());
        } else {
            let front = vs.drop_last();
            let mid = self.with_all(front);
            self.lemma_with_all(front);
            if self.ordered() {
                mid.lemma_with_ordered(vs.last());
            }
            mid.lemma_with_count(vs.last());
            assert(vs =~= front.push(vs.last()));
            assert forall|w: u64|
                self.with_all(vs).occurrences(w) == self.occurrences(w) + #[trigger] vs.to_multiset().count(w) by {
                mid.lemma_with_occurrences(vs.last(), w);
            }
        }
        assert forall|w: u64| #[trigger]
            self.with_all(vs).holds(w) <==> self.holds(w) || vs.contains(w) by {
            assert(vs.contains(w) <==> vs.to_multiset().count(w) > 0);
        }
    }

    /// A tree grown from nothing by a sequence of additions is in search
    /// order, has as many nodes as keys were added, and holds exactly the
    /// keys that were added.
    pub proof fn lemma_grown_from_empty(vs: Seq<u64>)
        ensures
            Shape::Empty.with_all(vs).ordered(),
            Shape::Empty.with_all(vs).count() == vs.len(),
            forall|w: u64| #[trigger] Shape::Empty.with_all(vs).holds(w) <==> vs.contains(w),
    {
        Shape::Empty.lemma_with_all(vs);
    }

    /// Adding lifts the height by at most one for each key added.
    pub proof fn lemma_with_all_height(self, vs: Seq<u64>)
        ensures
            self.height() <= self.with_all(vs).height() <= self.height() + vs.len(),
        decreases vs.len(),
    {
        if vs.len() > 0 {
            self.lemma_with_all_height(vs.drop_last());
            self.with_all(vs.drop_last()).lemma_with_height(vs.last());
        }
    }
}

} // verus!
