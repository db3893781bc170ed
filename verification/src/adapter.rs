//! The zeroizing adapter: a storage that hands every request through to the
//! storage it wraps, and wipes the whole block when it is dropped.

use crate::arena::ArenaStorage;
use crate::erase::{erase, erased};
use crate::heap::{AllocStorage, ReallocStorage};
use crate::storage::{
    grown_bytes, CapacityError, InlineStorage, OwnedStorage, SliceStorage, Storage,
};
use vstd::prelude::*;

verus! {

/// A storage wrapped so that its block does not outlive it unerased.
///
/// As a storage it is the storage it wraps: same block, same capacity, same
/// growth. What it adds is [`zeroize`](ZArrayStorage::zeroize), and a call of
/// it when the value is dropped. The erase covers the block from its first
/// byte to its last, whatever part of it is in use.
pub struct ZArrayStorage<S: Storage>(S);

/// An inline array that is wiped on drop.
pub type ZInlineStorage<const N: usize> = ZArrayStorage<InlineStorage<N>>;

/// A lent slice that is wiped on drop. The caller gets its memory back zeroed.
pub type ZSliceStorage<'s> = ZArrayStorage<SliceStorage<'s>>;

/// A region of an arena that is wiped on drop. The rest of the arena is not
/// touched.
pub type ZArenaStorage<'s> = ZArrayStorage<ArenaStorage<'s>>;

/// A heap block of fixed capacity that is wiped before it is freed.
pub type ZAllocStorage = ZArrayStorage<AllocStorage>;

/// A heap block that grows by reallocation. Each block that growth leaves
/// behind is wiped before it is freed.
pub type ZReallocStorage = ZArrayStorage<ReallocStorage>;

impl<S: Storage> View for ZArrayStorage<S> {
    type V = S;

    /// The storage that is wrapped.
    closed spec fn view(&self) -> S {
        self.0
    }
}

impl<S: Storage> From<S> for ZArrayStorage<S> {
    /// Wraps `storage`, as it is.
    fn from(storage: S) -> (z: Self)
        ensures
            z@ == storage,
    {
        ZArrayStorage(storage)
    }
}

impl<S: Storage> vstd::std_specs::convert::FromSpecImpl<S> for ZArrayStorage<S> {
    open spec fn obeys_from_spec() -> bool {
        true
    }

    closed spec fn from_spec(storage: S) -> Self {
        ZArrayStorage(storage)
    }
}

impl<S: Storage> Storage for ZArrayStorage<S> {
    const MIN_REPRESENTABLE: usize = S::MIN_REPRESENTABLE;

    open spec fn bytes(&self) -> Seq<u8> {
        self@.bytes()
    }

    open spec fn grown_capacity(capacity: nat, min_capacity: Option<usize>) -> Option<nat> {
        S::grown_capacity(capacity, min_capacity)
    }

    proof fn lemma_grown_capacity(capacity: nat, min_capacity: Option<usize>) {
        S::lemma_grown_capacity(capacity, min_capacity);
    }

    /// The capacity of the wrapped storage.
    fn capacity(&self) -> (c: usize)
        ensures
            c == self@.bytes().len(),
    {
        self.0.capacity()
    }

    /// The block of the wrapped storage, to read.
    fn get_ptr(&self) -> (block: &[u8])
        ensures
            block@ == self@.bytes(),
    {
        self.0.get_ptr()
    }

    /// The block of the wrapped storage, to write.
    fn get_mut_ptr(&mut self) -> (block: &mut [u8])
        ensures
            block@ == (*old(self))@.bytes(),
            (*final(self))@.bytes() == final(block)@,
    {
        self.0.get_mut_ptr()
    }

    /// Grows the wrapped storage and wraps what comes back, so that the new
    /// block is wiped on drop as this one is. This storage is left as it is,
    /// whether the wrapped storage grows or refuses.
    fn try_grow(&self, min_capacity: Option<usize>) -> (r: Result<Self, CapacityError>)
        ensures
            match S::grown_capacity(self@.bytes().len(), min_capacity) {
                Some(c) => r matches Ok(z) && z@.bytes() == grown_bytes(self@.bytes(), c),
                None => r is Err,
            },
    {
        match self.0.try_grow(min_capacity) {
            Ok(grown) => Ok(ZArrayStorage(grown)),
            Err(refused) => Err(refused),
        }
    }
}

impl<S: OwnedStorage> OwnedStorage for ZArrayStorage<S> {
    open spec fn initial_capacity(min_capacity: usize) -> Option<nat> {
        S::initial_capacity(min_capacity)
    }

    proof fn lemma_initial_capacity(min_capacity: usize) {
        S::lemma_initial_capacity(min_capacity);
    }

    /// Has the wrapped strategy make a block, and wraps it.
    fn try_with_capacity(min_capacity: usize) -> (r: Result<Self, CapacityError>) {
        match S::try_with_capacity(min_capacity) {
            Ok(storage) => Ok(ZArrayStorage(storage)),
            Err(refused) => Err(refused),
        }
    }
}

impl<S: Storage> ZArrayStorage<S> {
    /// Erases the block now: every byte of the full capacity is overwritten
    /// with zero, and the capacity stays what it was.
    pub fn zeroize(&mut self)
        ensures
            (*final(self))@.bytes() == erased((*old(self))@.bytes()),
        opens_invariants none
        no_unwind
    {
        erase(self.0.get_mut_ptr());
    }
}

impl<S: Storage> Drop for ZArrayStorage<S> {
    /// Erases the block, once, before the wrapped storage lets go of it.
    fn drop(&mut self)
        ensures
            (*final(self))@.bytes() == erased((*old(self))@.bytes()),
        opens_invariants none
        no_unwind
    {
        self.zeroize();
    }
}

/// Growth keeps, then clears. Where a wrapped storage grows, the new block is
/// no smaller than the old one, reaches the minimum that was asked for, and
/// starts with the bytes that the old one held. The old block is still there
/// for its wrapper to erase on drop, and once erased it is as long as it
/// was, and zero from its first byte to its last.
pub proof fn lemma_growth_keeps_then_clears<S: Storage>(
    storage: ZArrayStorage<S>,
    min_capacity: Option<usize>,
)
    requires
        ZArrayStorage::<S>::grown_capacity(storage.bytes().len(), min_capacity) is Some,
    ensures
        ({
            let kept = storage.bytes();
            let capacity = ZArrayStorage::<S>::grown_capacity(kept.len(), min_capacity)->0;
            let grown = grown_bytes(kept, capacity);
            &&& capacity >= kept.len()
            &&& min_capacity matches Some(m) ==> capacity >= m
            &&& grown.len() == capacity
            &&& grown.subrange(0, kept.len() as int) == kept
            &&& erased(kept).len() == kept.len()
            &&& forall|i: int| 0 <= i < kept.len() ==> #[trigger] erased(kept)[i] == 0u8
        }),
{
    S::lemma_grown_capacity(storage.bytes().len(), min_capacity);
}

/// The storages of fixed capacity have no answer to a request for growth,
/// whatever their capacity and whatever is asked for, and wrapping them does
/// not change that: `try_grow` on them always fails.
pub proof fn lemma_fixed_storages_never_grow<'a, const N: usize>(
    capacity: nat,
    min_capacity: Option<usize>,
)
    ensures
        ZInlineStorage::<N>::grown_capacity(capacity, min_capacity) is None,
        ZSliceStorage::<'a>::grown_capacity(capacity, min_capacity) is None,
        ZArenaStorage::<'a>::grown_capacity(capacity, min_capacity) is None,
        ZAllocStorage::grown_capacity(capacity, min_capacity) is None,
        ZArrayStorage::<&'a mut ReallocStorage>::grown_capacity(capacity, min_capacity) is None,
{
}

} // verus!
