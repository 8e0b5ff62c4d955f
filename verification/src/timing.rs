//! Timing one call of each operation on a tree.

use vstd::prelude::*;
use std::time::Duration;
use std::time::Instant;
use crate::binary_tree::BinaryTree;

verus! {

/// `std::time::Instant`, a reading of the monotonic clock. Nothing of its
/// value is visible here.
#[verifier::external_type_specification]
#[verifier::external_body]
pub struct ExInstant(Instant);

/// `Instant::now`: reads the clock. Nothing is claimed of the reading.
pub assume_specification[ Instant::now ]() -> (reading: Instant);

/// `Instant::duration_since`: the time from `earlier` to the receiver, zero
/// where `earlier` is the later one. Nothing is claimed of the amount.
pub assume_specification[ Instant::duration_since ](
    later: &Instant,
    earlier: Instant,
) -> (elapsed: Duration);

/// `Duration::as_nanos`: the whole span in nanoseconds. Nothing is claimed
/// of the number.
pub assume_specification[ Duration::as_nanos ](span: &Duration) -> (nanos: u128);

/// How long one call of each operation took, in nanoseconds.
pub struct TimeCounts {
    pub insert: u128,
    pub size: u128,
    pub depth: u128,
    pub search: u128,
}

/// Times `size`, then `insert` of a key one larger than the size just
/// measured, then `search` for that key, then `depth`. The tree gains that
/// one key; each time is what the clock gave, in nanoseconds.
pub fn calc_execution_times(tree: &mut BinaryTree) -> (times: TimeCounts)
    requires
        old(tree)@.count() < u64::MAX,
    ensures
        final(tree)@ == old(tree)@.with((old(tree)@.count() + 1) as u64),
        final(tree)@.count() == old(tree)@.count() + 1,
        final(tree)@.ordered(),
        final(tree)@.height() == old(tree)@.height() || final(tree)@.height() == old(
            tree,
        )@.height() + 1,
        forall|w: u64| #[trigger]
            final(tree)@.holds(w) <==> old(tree)@.holds(w) || w == old(tree)@.count() + 1,
{
    let start_timer = Instant::now();
    let tree_size: u64 = tree.size();
    let end_timer = Instant::now();
    let size_time: u128 = end_timer.duration_since(start_timer).as_nanos();

    let new_element: u64 = tree_size + 1;

    let start_timer = Instant::now();
    tree.insert(new_element);
    let end_timer = Instant::now();
    let insert_time: u128 = end_timer.duration_since(start_timer).as_nanos();

    let start_timer = Instant::now();
    let _found: bool = tree.search(new_element);
    let end_timer = Instant::now();
    let search_time: u128 = end_timer.duration_since(start_timer).as_nanos();

    let start_timer = Instant::now();
    let _levels: u64 = tree.depth();
    let end_timer = Instant::now();
    let depth_time: u128 = end_timer.duration_since(start_timer).as_nanos();

    TimeCounts { size: size_time, insert: insert_time, search: search_time, depth: depth_time }
}

} // verus!
