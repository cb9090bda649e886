//! Allocation blocks and the heap that holds them.
use vstd::prelude::*;

use crate::count::{Count, MAX_REFCOUNT};

verus! {

/// One allocation: a counter shared by every handle to it, and the value.
pub struct Inner<T> {
    pub count: Count,
    pub data: T,
}

impl<T> Inner<T> {
    /// A block over `data` with one owner, counting in `Single` mode.
    pub fn new(data: T) -> (r: Inner<T>)
        ensures
            r.count == Count::Single(1),
            r.data == data,
    {
        Inner { count: Count::new(), data }
    }
}

/// The blocks of every allocation, addressed by index. A slot holds `Some`
/// while the block is alive and `None` once it has been freed; slots are
/// never reused, so a freed block cannot come back to life.
///
/// Every change of a counter borrows the heap mutably, so a heap reached from
/// several threads sits behind a lock, and each increment, decrement and
/// demotion check is one indivisible step with respect to the others.
pub struct Heap<T> {
    blocks: Vec<Option<Inner<T>>>,
}

impl<T> View for Heap<T> {
    type V = Seq<Option<Inner<T>>>;

    closed spec fn view(&self) -> Seq<Option<Inner<T>>> {
        self.blocks@
    }
}

impl<T> Heap<T> {
    /// Every live block has at least one owner.
    pub open spec fn wf(&self) -> bool {
        forall|i: int| 0 <= i < self@.len() && #[trigger] self@[i] is Some ==> self@[i]->0.count.value() >= 1
    }

    /// Whether block `i` exists and has not been freed.
    pub open spec fn live(&self, i: int) -> bool {
        0 <= i < self@.len() && self@[i] is Some
    }

    /// The counter of block `i`.
    pub open spec fn count_at(&self, i: int) -> Count {
        self@[i]->0.count
    }

    /// The value held by block `i`.
    pub open spec fn value_at(&self, i: int) -> T {
        self@[i]->0.data
    }

    /// The blocks after the counter of block `i` is replaced by `c`.
    pub open spec fn with_count(&self, i: int, c: Count) -> Seq<Option<Inner<T>>> {
        self@.update(i, Some(Inner { count: c, data: self.value_at(i) }))
    }

    /// An empty heap.
    pub fn new() -> (r: Heap<T>)
        ensures
            r.wf(),
            r@ == Seq::<Option<Inner<T>>>::empty(),
    {
        Heap { blocks: Vec::new() }
    }

    /// Allocates a block over `data` with one owner in `Single` mode, and
    /// returns its index.
    pub fn allocate(&mut self, data: T) -> (r: usize)
        requires
            old(self).wf(),
        ensures
            final(self).wf(),
            r as int == old(self)@.len(),
            final(self)@ == old(self)@.push(Some(Inner { count: Count::Single(1), data })),
    {
        let r = self.blocks.len();
        self.blocks.push(Some(Inner::new(data)));
        r
    }

    /// Takes block `i` out of its slot, leaving `None` there.
    fn take(&mut self, i: usize) -> (r: Inner<T>)
        requires
            old(self).live(i as int),
        ensures
            r == old(self)@[i as int]->0,
            final(self)@ == old(self)@.update(i as int, None),
    {
        let mut slot: Option<Inner<T>> = None;
        self.blocks.set_and_swap(i, &mut slot);
        slot.unwrap()
    }

    /// Adds one owner to block `i` and returns its new count.
    pub fn increment(&mut self, i: usize) -> (r: usize)
        requires
            old(self).wf(),
            old(self).live(i as int),
            old(self).count_at(i as int).value() < MAX_REFCOUNT,
        ensures
            final(self).wf(),
            final(self)@ == old(self).with_count(i as int, old(self).count_at(i as int).incremented()),
            r as nat == old(self).count_at(i as int).value() + 1,
    {
        let mut block = self.take(i);
        let r = block.count.increment();
        self.blocks.set(i, Some(block));
        r
    }

    /// Removes one owner from block `i` and returns the new count. When it
    /// reaches zero the block, value included, is freed.
    pub fn decrement(&mut self, i: usize) -> (r: usize)
        requires
            old(self).wf(),
            old(self).live(i as int),
        ensures
            final(self).wf(),
            r as nat == old(self).count_at(i as int).value() - 1,
            r == 0 ==> final(self)@ == old(self)@.update(i as int, None),
            r != 0 ==> final(self)@ == old(self).with_count(i as int, old(self).count_at(i as int).decremented()),
    {
        let mut block = self.take(i);
        let r = block.count.decrement();
        if r != 0 {
            self.blocks.set(i, Some(block));
        }
        r
    }

    /// Switches the counter of block `i` to `Multi` mode.
    pub fn make_multi_threaded(&mut self, i: usize)
        requires
            old(self).wf(),
            old(self).live(i as int),
        ensures
            final(self).wf(),
            final(self)@ == old(self).with_count(i as int, old(self).count_at(i as int).promoted()),
            old(self).count_at(i as int).is_multi() ==> final(self)@ == old(self)@,
    {
        let mut block = self.take(i);
        block.count.make_multi_threaded();
        self.blocks.set(i, Some(block));
        proof {
            if old(self).count_at(i as int).is_multi() {
                assert(final(self)@ =~= old(self)@);
            }
        }
    }

    /// Tries to switch the counter of block `i` back to `Single` mode; see
    /// [`Count::make_single_threaded`].
    pub fn make_single_threaded(&mut self, i: usize) -> (r: bool)
        requires
            old(self).wf(),
            old(self).live(i as int),
        ensures
            final(self).wf(),
            r == old(self).count_at(i as int).can_demote(),
            final(self)@ == old(self).with_count(i as int, old(self).count_at(i as int).demoted()),
            !r ==> final(self)@ == old(self)@,
    {
        let mut block = self.take(i);
        let r = block.count.make_single_threaded();
        self.blocks.set(i, Some(block));
        proof {
            if !r {
                assert(final(self)@ =~= old(self)@);
            }
        }
        r
    }

    /// The counter of block `i`.
    pub fn count(&self, i: usize) -> (r: Count)
        requires
            self.live(i as int),
        ensures
            r == self.count_at(i as int),
    {
        self.blocks[i].as_ref().unwrap().count
    }

    /// A view of the value held by block `i`.
    pub fn get(&self, i: usize) -> (r: &T)
        requires
            self.live(i as int),
        ensures
            *r == self.value_at(i as int),
    {
        &self.blocks[i].as_ref().unwrap().data
    }

    /// Whether block `i` exists and has not been freed.
    pub fn is_live(&self, i: usize) -> (r: bool)
        ensures
            r == self.live(i as int),
    {
        i < self.blocks.len() && self.blocks[i].is_some()
    }
}

} // verus!
