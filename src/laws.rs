//! Properties that relate several operations on a block's counter.
use vstd::prelude::*;

use crate::count::{Count, MAX_REFCOUNT};
use crate::heap::{Heap, Inner};

verus! {

/// The counter after `k` owners have given up their share, one at a time.
pub open spec fn after_drops(c: Count, k: nat) -> Count
    decreases k,
{
    if k == 0 {
        c
    } else {
        after_drops(c, (k - 1) as nat).decremented()
    }
}

/// A block allocated over `v` holds `v`: dereferencing the handle that
/// `Rc::new` returns yields the value it was given.
pub proof fn lemma_new_holds_value<T>(before: Heap<T>, after: Heap<T>, v: T)
    requires
        after@ == before@.push(Some(Inner { count: Count::Single(1), data: v })),
    ensures
        after.live(before@.len() as int),
        after.value_at(before@.len() as int) == v,
        after.count_at(before@.len() as int) == Count::Single(1),
{
}

/// Cloning a handle and dropping the clone leaves the counter as it was.
pub proof fn lemma_clone_then_drop(c: Count)
    requires
        c.value() < MAX_REFCOUNT,
    ensures
        c.incremented().value() == c.value() + 1,
        c.incremented().decremented() == c,
{
}

/// With `n` owners, each of the first `n - 1` drops leaves the block alive
/// with one owner fewer and its mode unchanged; the count reaches zero, and
/// the block is freed, at the `n`-th drop and at no other.
pub proof fn lemma_freed_after_all_drops(c: Count, k: nat)
    requires
        k <= c.value(),
    ensures
        after_drops(c, k).value() == c.value() - k,
        after_drops(c, k).is_multi() == c.is_multi(),
        (after_drops(c, k).value() == 0) == (k == c.value()),
    decreases k,
{
    if k > 0 {
        lemma_freed_after_all_drops(c, (k - 1) as nat);
    }
}

/// Promotion is idempotent: promoting twice is promoting once, and a counter
/// already in `Multi` mode keeps its count and mode.
pub proof fn lemma_promote_idempotent(c: Count)
    ensures
        c.promoted().promoted() == c.promoted(),
        c.is_multi() ==> c.promoted() == c,
{
}

/// Demotion leaves the count as it was. On a counter in `Multi` mode it
/// succeeds exactly when one owner remains; on one in `Single` mode it
/// succeeds at once. A refused demotion changes nothing.
pub proof fn lemma_demote_sound(c: Count)
    ensures
        c.demoted().value() == c.value(),
        c.is_multi() ==> (c.can_demote() <==> c.value() == 1),
        c.can_demote() <==> !c.demoted().is_multi(),
        !c.can_demote() ==> c.demoted() == c,
{
}

/// Promoting a handle of block `i` and unwrapping it again leaves the block
/// with the same value and count, in `Multi` mode: `Rc::from_arc(Arc::from_rc(h))`
/// names the same block as `h` and owns the same share of it.
pub proof fn lemma_round_trip<T>(heap: Heap<T>, i: int)
    requires
        heap.wf(),
        heap.live(i),
    ensures
        ({
            let after = heap.with_count(i, heap.count_at(i).promoted());
            &&& after.len() == heap@.len()
            &&& after[i] is Some
            &&& after[i]->0.data == heap.value_at(i)
            &&& after[i]->0.count.value() == heap.count_at(i).value()
            &&& after[i]->0.count.is_multi()
            &&& forall|j: int| 0 <= j < after.len() && j != i ==> after[j] == heap@[j]
        }),
{
}

} // verus!
