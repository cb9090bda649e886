//! Reference-counted handles whose counter switches between an unsynchronised
//! and a synchronised mode.
//!
//! Every allocation is a block in a [`Heap`]: one counter and one value. An
//! [`Rc`] names a block and shares its counter with every other handle to it;
//! an [`Arc`] wraps an `Rc` whose block is known to count in `Multi` mode.
//! Handles are consumed by `drop`, which frees the block with its last owner.
pub mod count;
pub mod handle;
pub mod heap;
pub mod laws;

pub use count::{Count, MAX_REFCOUNT};
pub use handle::{Arc, Rc};
pub use heap::{Heap, Inner};
