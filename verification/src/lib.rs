//! Storage blocks that are wiped when they are let go.
//!
//! A growable sequence keeps its items in a block of memory that it gets from
//! a storage strategy: an inline array, a lent slice, a region carved from an
//! arena, a heap block. [`ZArrayStorage`] wraps any such strategy, hands every
//! request through to it unchanged, and overwrites the whole block with zeros
//! when the wrapper is dropped, or earlier on request. The whole block, not the
//! part in use: a storage does not know how many items its owner counts as
//! live, and what lies beyond them may be left over from earlier use.

pub mod adapter;
pub mod arena;
pub mod erase;
pub mod heap;
pub mod storage;

pub use adapter::{
    ZAllocStorage, ZArenaStorage, ZArrayStorage, ZInlineStorage, ZReallocStorage, ZSliceStorage,
};
pub use arena::ArenaStorage;
pub use erase::{erase, region_len};
pub use heap::{AllocStorage, ReallocStorage};
pub use storage::{CapacityError, InlineStorage, OwnedStorage, SliceStorage, Storage};
