//! The two handle types over a block: `Rc`, which may count in either mode,
//! and `Arc`, whose block always counts in `Multi` mode.
use vstd::prelude::*;

use crate::count::{Count, MAX_REFCOUNT};
use crate::heap::{Heap, Inner};
use core::marker::PhantomData;

verus! {

/// A reference-counted handle to a block of a [`Heap`]. It counts without
/// synchronisation until an [`Arc`] is made from it or from any other handle
/// to the same block; from then on every handle to that block counts in
/// `Multi` mode.
pub struct Rc<T> {
    index: usize,
    phantom: PhantomData<T>,
}

/// A thread-safe handle: an [`Rc`] whose block counts in `Multi` mode for as
/// long as the `Arc` lives.
pub struct Arc<T> {
    inner: Rc<T>,
}

impl<T> Rc<T> {
    /// The index of the block this handle owns a share of.
    pub closed spec fn id(&self) -> int {
        self.index as int
    }

    /// Allocates a block over `data` in `heap`, with this handle as its one
    /// owner, counting in `Single` mode.
    pub fn new(heap: &mut Heap<T>, data: T) -> (r: Rc<T>)
        requires
            old(heap).wf(),
        ensures
            final(heap).wf(),
            r.id() == old(heap)@.len(),
            final(heap)@ == old(heap)@.push(Some(Inner { count: Count::Single(1), data })),
    {
        let index = heap.allocate(data);
        Rc { index, phantom: PhantomData }
    }

    /// Unwraps an `Arc` into the `Rc` it holds. The block stays in `Multi` mode.
    pub fn from_arc(arc: Arc<T>) -> (r: Rc<T>)
        ensures
            r.id() == arc.id(),
    {
        arc.inner
    }

    /// Tries to switch the block back to unsynchronised counting. Returns
    /// `true` if it now counts in `Single` mode: it already did, or this
    /// handle is its sole owner. Otherwise returns `false` and changes nothing.
    pub fn unshare(this: &Self, heap: &mut Heap<T>) -> (r: bool)
        requires
            old(heap).wf(),
            old(heap).live(this.id()),
        ensures
            final(heap).wf(),
            r == (!old(heap).count_at(this.id()).is_multi() || old(heap).count_at(this.id()).value() == 1),
            r ==> final(heap)@ == old(heap).with_count(this.id(), Count::Single(old(heap).count_at(this.id()).value() as usize)),
            !r ==> final(heap)@ == old(heap)@,
    {
        heap.make_single_threaded(this.index)
    }

    /// A new handle to the same block, adding one owner to its count in the
    /// mode it is in.
    pub fn clone(&self, heap: &mut Heap<T>) -> (r: Rc<T>)
        requires
            old(heap).wf(),
            old(heap).live(self.id()),
            old(heap).count_at(self.id()).value() < MAX_REFCOUNT,
        ensures
            final(heap).wf(),
            r.id() == self.id(),
            final(heap)@ == old(heap).with_count(self.id(), old(heap).count_at(self.id()).incremented()),
    {
        heap.increment(self.index);
        Rc { index: self.index, phantom: PhantomData }
    }

    /// Gives up this handle's share of the block. Returns `true` if it was
    /// the last owner, in which case the block and its value are freed.
    pub fn drop(self, heap: &mut Heap<T>) -> (r: bool)
        requires
            old(heap).wf(),
            old(heap).live(self.id()),
        ensures
            final(heap).wf(),
            r == (old(heap).count_at(self.id()).value() == 1),
            r ==> final(heap)@ == old(heap)@.update(self.id(), None),
            !r ==> final(heap)@ == old(heap).with_count(self.id(), old(heap).count_at(self.id()).decremented()),
    {
        heap.decrement(self.index) == 0
    }

    /// A read-only view of the value in the block.
    pub fn deref<'a>(&self, heap: &'a Heap<T>) -> (r: &'a T)
        requires
            heap.live(self.id()),
        ensures
            *r == heap.value_at(self.id()),
    {
        heap.get(self.index)
    }

    /// The number of owners of the block.
    pub fn strong_count(this: &Self, heap: &Heap<T>) -> (r: usize)
        requires
            heap.live(this.id()),
        ensures
            r as nat == heap.count_at(this.id()).value(),
    {
        heap.count(this.index).get()
    }

    /// Whether the block counts in `Multi` mode.
    pub fn is_multi_threaded(this: &Self, heap: &Heap<T>) -> (r: bool)
        requires
            heap.live(this.id()),
        ensures
            r == heap.count_at(this.id()).is_multi(),
    {
        heap.count(this.index).is_multi_threaded()
    }

    /// Whether two handles share one block.
    pub fn ptr_eq(this: &Self, other: &Self) -> (r: bool)
        ensures
            r == (this.id() == other.id()),
    {
        this.index == other.index
    }
}

impl<T> Arc<T> {
    /// The index of the block this handle owns a share of.
    pub closed spec fn id(&self) -> int {
        self.inner.id()
    }

    /// Whether the block of this handle is alive and counts in `Multi` mode,
    /// as it must for as long as the handle lives.
    pub open spec fn wf(&self, heap: &Heap<T>) -> bool {
        heap.live(self.id()) && heap.count_at(self.id()).is_multi()
    }

    /// Allocates a block over `data` in `heap`, with this handle as its one
    /// owner, counting in `Multi` mode.
    pub fn new(heap: &mut Heap<T>, data: T) -> (r: Arc<T>)
        requires
            old(heap).wf(),
        ensures
            final(heap).wf(),
            r.id() == old(heap)@.len(),
            r.wf(final(heap)),
            final(heap)@ == old(heap)@.push(Some(Inner { count: Count::Multi(1), data })),
    {
        let rc = Rc::new(heap, data);
        Arc::from_rc(rc, heap)
    }

    /// Wraps an `Rc` into an `Arc`, switching its block to `Multi` mode. Every
    /// other handle to the block counts in `Multi` mode from then on. A block
    /// already in `Multi` mode is left as it is.
    pub fn from_rc(rc: Rc<T>, heap: &mut Heap<T>) -> (r: Arc<T>)
        requires
            old(heap).wf(),
            old(heap).live(rc.id()),
        ensures
            final(heap).wf(),
            r.id() == rc.id(),
            r.wf(final(heap)),
            final(heap)@ == old(heap).with_count(rc.id(), old(heap).count_at(rc.id()).promoted()),
            old(heap).count_at(rc.id()).is_multi() ==> final(heap)@ == old(heap)@,
    {
        heap.make_multi_threaded(rc.index);
        Arc { inner: rc }
    }

    /// A new handle to the same block, adding one owner.
    pub fn clone(&self, heap: &mut Heap<T>) -> (r: Arc<T>)
        requires
            old(heap).wf(),
            old(heap).live(self.id()),
            old(heap).count_at(self.id()).value() < MAX_REFCOUNT,
        ensures
            final(heap).wf(),
            r.id() == self.id(),
            self.wf(old(heap)) ==> r.wf(final(heap)),
            final(heap)@ == old(heap).with_count(self.id(), old(heap).count_at(self.id()).incremented()),
    {
        Arc { inner: self.inner.clone(heap) }
    }

    /// Gives up this handle's share of the block. Returns `true` if it was
    /// the last owner, in which case the block and its value are freed.
    pub fn drop(self, heap: &mut Heap<T>) -> (r: bool)
        requires
            old(heap).wf(),
            old(heap).live(self.id()),
        ensures
            final(heap).wf(),
            r == (old(heap).count_at(self.id()).value() == 1),
            r ==> final(heap)@ == old(heap)@.update(self.id(), None),
            !r ==> final(heap)@ == old(heap).with_count(self.id(), old(heap).count_at(self.id()).decremented()),
    {
        self.inner.drop(heap)
    }

    /// A read-only view of the value in the block.
    pub fn deref<'a>(&self, heap: &'a Heap<T>) -> (r: &'a T)
        requires
            heap.live(self.id()),
        ensures
            *r == heap.value_at(self.id()),
    {
        self.inner.deref(heap)
    }

    /// The number of owners of the block.
    pub fn strong_count(this: &Self, heap: &Heap<T>) -> (r: usize)
        requires
            heap.live(this.id()),
        ensures
            r as nat == heap.count_at(this.id()).value(),
    {
        Rc::strong_count(&this.inner, heap)
    }
}

} // verus!
