//! The reference counter of one block, in either of its two modes.
use vstd::prelude::*;

verus! {

/// The largest count a block may reach; one more reference than this aborts.
pub const MAX_REFCOUNT: usize = usize::MAX / 2;

/// A reference count, tagged with the mode in which it is accessed.
#[derive(Clone, Copy, PartialEq, Eq, Structural)]
pub enum Count {
    /// Counted without synchronisation: no thread-safe handle exists.
    Single(usize),
    /// Counted atomically: a thread-safe handle exists or has existed.
    Multi(usize),
}

impl Count {
    /// The number of owners the counter records.
    pub open spec fn value(self) -> nat {
        match self {
            Count::Single(n) => n as nat,
            Count::Multi(n) => n as nat,
        }
    }

    /// Whether the counter is in the synchronised mode.
    pub open spec fn is_multi(self) -> bool {
        self is Multi
    }

    /// The counter with the given value, in the same mode.
    pub open spec fn with_value(self, n: usize) -> Count {
        match self {
            Count::Single(_) => Count::Single(n),
            Count::Multi(_) => Count::Multi(n),
        }
    }

    /// One owner more, same mode.
    pub open spec fn incremented(self) -> Count {
        self.with_value((self.value() + 1) as usize)
    }

    /// One owner fewer, same mode.
    pub open spec fn decremented(self) -> Count {
        self.with_value((self.value() - 1) as usize)
    }

    /// The counter after promotion: same value, `Multi` mode.
    pub open spec fn promoted(self) -> Count {
        Count::Multi(self.value() as usize)
    }

    /// Whether demotion succeeds: the counter is `Single` or records one owner.
    pub open spec fn can_demote(self) -> bool {
        !self.is_multi() || self.value() == 1
    }

    /// The counter after a demotion attempt: `Single` if it succeeds, unchanged otherwise.
    pub open spec fn demoted(self) -> Count {
        if self.can_demote() {
            Count::Single(self.value() as usize)
        } else {
            self
        }
    }

    /// A fresh counter: one owner, `Single` mode.
    pub fn new() -> (r: Count)
        ensures
            r == Count::Single(1),
    {
        Count::Single(1)
    }

    /// The number of owners.
    pub fn get(&self) -> (r: usize)
        ensures
            r as nat == self.value(),
    {
        match self {
            Count::Single(n) => *n,
            Count::Multi(n) => *n,
        }
    }

    /// Whether the counter is in `Multi` mode.
    pub fn is_multi_threaded(&self) -> (r: bool)
        ensures
            r == self.is_multi(),
    {
        match self {
            Count::Single(_) => false,
            Count::Multi(_) => true,
        }
    }

    /// Adds one owner and returns the new count. The count may not pass
    /// `MAX_REFCOUNT`: reaching beyond it is where the process aborts.
    pub fn increment(&mut self) -> (r: usize)
        requires
            old(self).value() < MAX_REFCOUNT,
        ensures
            *final(self) == old(self).incremented(),
            r as nat == old(self).value() + 1,
            r <= MAX_REFCOUNT,
    {
        match self {
            Count::Single(n) => {
                let count = *n + 1;
                *self = Count::Single(count);
                count
            },
            Count::Multi(n) => {
                let count = *n + 1;
                *self = Count::Multi(count);
                count
            },
        }
    }

    /// Removes one owner and returns the new count; zero means the block is to be freed.
    pub fn decrement(&mut self) -> (r: usize)
        requires
            old(self).value() >= 1,
        ensures
            *final(self) == old(self).decremented(),
            r as nat == old(self).value() - 1,
    {
        match self {
            Count::Single(n) => {
                let count = *n - 1;
                *self = Count::Single(count);
                count
            },
            Count::Multi(n) => {
                let count = *n - 1;
                *self = Count::Multi(count);
                count
            },
        }
    }
    /// Switches to `Multi` mode, keeping the count; a counter already in
    /// `Multi` mode is left as it is.
    pub fn make_multi_threaded(&mut self)
        ensures
            *final(self) == old(self).promoted(),
            old(self).is_multi() ==> *final(self) == *old(self),
    {
        let count = match self {
            Count::Single(n) => *n,
            Count::Multi(_) => return,
        };
        *self = Count::Multi(count);
    }

    /// Tries to switch to `Single` mode. A `Single` counter succeeds at once;
    /// a `Multi` counter succeeds only if it records exactly one owner, and
    /// is otherwise left unchanged. The check and the switch happen in one
    /// step under the exclusive borrow, so no increment can come between them.
    pub fn make_single_threaded(&mut self) -> (r: bool)
        ensures
            r == old(self).can_demote(),
            *final(self) == old(self).demoted(),
            final(self).value() == old(self).value(),
            r ==> !final(self).is_multi(),
            !r ==> *final(self) == *old(self),
    {
        let count = match self {
            Count::Single(_) => return true,
            Count::Multi(n) => *n,
        };
        if count == 1 {
            *self = Count::Single(count);
            true
        } else {
            false
        }
    }
}

} // verus!
