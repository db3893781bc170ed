//! Storages whose block is a heap allocation of its own: one that stays as it
//! was made, and one that is replaced by a larger one on growth.

use crate::erase::{max_region_len, zeros};
use crate::storage::{grown_bytes, CapacityError, OwnedStorage, Storage};
use vstd::prelude::*;

verus! {

/// The capacity of a heap block made on a request for `min_capacity` bytes:
/// what was asked for, where a block can be that long.
pub open spec fn heap_capacity(min_capacity: usize) -> Option<nat> {
    if min_capacity <= max_region_len() {
        Some(min_capacity as nat)
    } else {
        None
    }
}

/// The capacity that a reallocating block of `capacity` bytes grows to. It
/// doubles, as far as a block can be long, and goes further where more is
/// asked for. With no minimum given, one byte more is asked for.
pub open spec fn realloc_capacity(capacity: nat, min_capacity: Option<usize>) -> Option<nat> {
    let wanted = match min_capacity {
        Some(m) => m as nat,
        None => capacity + 1,
    };
    let doubled = if 2 * capacity <= max_region_len() {
        2 * capacity
    } else {
        max_region_len()
    };
    if capacity <= max_region_len() && wanted <= max_region_len() {
        Some(if wanted >= doubled { wanted } else { doubled })
    } else {
        None
    }
}

/// Calls `Vec::into_boxed_slice`, which hands the vector's elements over as a
/// boxed slice, in the same order.
#[verifier::external_body]
fn into_block(bytes: Vec<u8>) -> (block: Box<[u8]>)
    ensures
        block@ == bytes@,
{
    bytes.into_boxed_slice()
}

/// A fresh heap block of `len` zeros.
fn zeroed_block(len: usize) -> (block: Box<[u8]>)
    requires
        len <= max_region_len(),
    ensures
        block@ == zeros(len as nat),
{
    let bytes = vec![0u8; len];
    assert(bytes@ =~= zeros(len as nat));
    into_block(bytes)
}

/// A heap block of the capacity it was made with. It cannot grow.
pub struct AllocStorage {
    block: Box<[u8]>,
}

impl View for AllocStorage {
    type V = Seq<u8>;

    closed spec fn view(&self) -> Seq<u8> {
        self.block@
    }
}

impl Storage for AllocStorage {
    const MIN_REPRESENTABLE: usize = 0;

    open spec fn bytes(&self) -> Seq<u8> {
        self@
    }

    open spec fn grown_capacity(capacity: nat, min_capacity: Option<usize>) -> Option<nat> {
        None
    }

    proof fn lemma_grown_capacity(capacity: nat, min_capacity: Option<usize>) {
    }

    fn capacity(&self) -> (c: usize) {
        self.block.len()
    }

    fn get_ptr(&self) -> (block: &[u8]) {
        &*self.block
    }

    fn get_mut_ptr(&mut self) -> (block: &mut [u8]) {
        &mut *self.block
    }

    fn try_grow(&self, min_capacity: Option<usize>) -> (r: Result<Self, CapacityError>) {
        Err(CapacityError)
    }
}

impl OwnedStorage for AllocStorage {
    open spec fn initial_capacity(min_capacity: usize) -> Option<nat> {
        heap_capacity(min_capacity)
    }

    proof fn lemma_initial_capacity(min_capacity: usize) {
    }

    fn try_with_capacity(min_capacity: usize) -> (r: Result<Self, CapacityError>) {
        if min_capacity <= isize::MAX as usize {
            Ok(AllocStorage { block: zeroed_block(min_capacity) })
        } else {
            Err(CapacityError)
        }
    }
}

/// A heap block that grows by giving way to a larger one. Growth copies the
/// bytes over and leaves the old block as it is: whoever holds the old
/// storage decides what becomes of it.
pub struct ReallocStorage {
    block: Box<[u8]>,
}

impl View for ReallocStorage {
    type V = Seq<u8>;

    closed spec fn view(&self) -> Seq<u8> {
        self.block@
    }
}

impl Storage for ReallocStorage {
    const MIN_REPRESENTABLE: usize = 0;

    open spec fn bytes(&self) -> Seq<u8> {
        self@
    }

    open spec fn grown_capacity(capacity: nat, min_capacity: Option<usize>) -> Option<nat> {
        realloc_capacity(capacity, min_capacity)
    }

    proof fn lemma_grown_capacity(capacity: nat, min_capacity: Option<usize>) {
    }

    fn capacity(&self) -> (c: usize) {
        self.block.len()
    }

    fn get_ptr(&self) -> (block: &[u8]) {
        &*self.block
    }

    fn get_mut_ptr(&mut self) -> (block: &mut [u8]) {
        &mut *self.block
    }

    fn try_grow(&self, min_capacity: Option<usize>) -> (r: Result<Self, CapacityError>) {
        let limit: usize = isize::MAX as usize;
        let capacity: usize = self.block.len();
        if capacity > limit {
            return Err(CapacityError);
        }
        let wanted: usize = match min_capacity {
            Some(m) => m,
            None => capacity + 1,
        };
        if wanted > limit {
            return Err(CapacityError);
        }
        let doubled: usize = if capacity <= limit / 2 {
            capacity * 2
        } else {
            limit
        };
        let target: usize = if wanted >= doubled {
            wanted
        } else {
            doubled
        };
        let mut bytes = vec![0u8; target];
        let mut i: usize = 0;
        while i < capacity
            invariant
                i <= capacity <= target,
                capacity == self.block@.len(),
                bytes@.len() == target,
                forall|j: int| 0 <= j < i ==> bytes@[j] == self.block@[j],
                forall|j: int| i <= j < target ==> bytes@[j] == 0u8,
            decreases capacity - i,
        {
            bytes[i] = self.block[i];
            i = i + 1;
        }
        assert(bytes@ =~= grown_bytes(self.block@, target as nat));
        Ok(ReallocStorage { block: into_block(bytes) })
    }
}

impl OwnedStorage for ReallocStorage {
    open spec fn initial_capacity(min_capacity: usize) -> Option<nat> {
        heap_capacity(min_capacity)
    }

    proof fn lemma_initial_capacity(min_capacity: usize) {
    }

    fn try_with_capacity(min_capacity: usize) -> (r: Result<Self, CapacityError>) {
        if min_capacity <= isize::MAX as usize {
            Ok(ReallocStorage { block: zeroed_block(min_capacity) })
        } else {
            Err(CapacityError)
        }
    }
}

} // verus!
