//! Filling a tree with keys drawn at random.

use vstd::prelude::*;
use rand::Rng;
use rand::rngs::ThreadRng;
use crate::binary_tree::BinaryTree;

verus! {

/// Random keys are drawn from `0..KEY_LIMIT`.
pub const KEY_LIMIT: u64 = 1000;

/// `rand::rngs::ThreadRng`, the generator that each thread owns. Nothing of
/// its state is visible here.
#[verifier::external_type_specification]
#[verifier::external_body]
pub struct ExThreadRng(ThreadRng);

/// `rand::thread_rng`: hands out the calling thread's generator, seeded by
/// the system on first use. Nothing is claimed of it.
pub assume_specification[ rand::thread_rng ]() -> (rng: ThreadRng);

/// `Rng::gen_range` on the half-open range `low..high`: rand refuses an empty
/// range, and returns the range's start plus an offset smaller than its
/// length, so the key drawn lies in the range. Which key it is depends on
/// the generator's state.
#[verifier::external_body]
fn draw_between(rng: &mut ThreadRng, low: u64, high: u64) -> (key: u64)
    requires
        low < high,
    ensures
        low <= key < high,
{
    rng.gen_range(low..high)
}

/// How many keys `populate_tree_rand` draws for a given `elements_count`:
/// one for each number from 1 up to, and without, `elements_count`.
pub open spec fn draws(elements_count: u64) -> nat {
    if elements_count == 0 {
        0
    } else {
        (elements_count - 1) as nat
    }
}

/// Draws one key below `KEY_LIMIT` for each number in `1..elements_count`
/// and inserts it as it comes. Whatever was drawn, the tree ends as the old
/// one with those keys added in order.
pub fn populate_tree_rand(tree: &mut BinaryTree, elements_count: u64)
    requires
        old(tree)@.count() + draws(elements_count) <= u64::MAX,
    ensures
        final(tree)@.count() == old(tree)@.count() + draws(elements_count),
        final(tree)@.ordered(),
        old(tree)@.height() <= final(tree)@.height() <= old(tree)@.height() + draws(
            elements_count,
        ),
        exists|keys: Seq<u64>|
            {
                &&& keys.len() == draws(elements_count)
                &&& forall|i: int| 0 <= i < keys.len() ==> keys[i] < KEY_LIMIT
                &&& final(tree)@ == #[trigger] old(tree)@.with_all(keys)
                &&& forall|w: u64| #[trigger]
                    final(tree)@.holds(w) <==> old(tree)@.holds(w) || keys.contains(w)
            },
{
    proof {
        use_type_invariant(&*tree);
    }
    let ghost before = tree@;
    let ghost mut keys: Seq<u64> = Seq::empty();
    let mut rng = rand::thread_rng();
    let mut n: u64 = 1;
    while n < elements_count
        invariant
            1 <= n,
            n <= elements_count || (elements_count == 0 && n == 1),
            before.count() + draws(elements_count) <= u64::MAX,
            keys.len() == n - 1,
            forall|i: int| 0 <= i < keys.len() ==> keys[i] < KEY_LIMIT,
            tree@ == before.with_all(keys),
            before.ordered(),
            tree@.count() == before.count() + keys.len(),
        decreases elements_count - n,
    {
        let key: u64 = draw_between(&mut rng, 0, KEY_LIMIT);
        tree.insert(key);
        proof {
            assert(keys.push(key).drop_last() =~= keys);
            keys = keys.push(key);
        }
        n = n + 1;
    }
    proof {
        before.lemma_with_all(keys);
        before.lemma_with_all_height(keys);
    }
}

} // verus!
