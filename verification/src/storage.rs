//! What a storage strategy has to offer, and the strategies that are plain
//! memory: an array held in place, a slice lent by the caller, and a storage
//! reached through a mutable reference.

use crate::erase::zeros;
use vstd::prelude::*;

verus! {

/// A request for capacity that the storage cannot meet. It is an answer, not a
/// failure of the program: the caller goes on with the block it has.
#[derive(Clone, Copy, Debug, PartialEq, Eq)]
pub struct CapacityError;

/// The bytes of a block that has grown to `capacity`: what the old block
/// held, then zeros.
pub open spec fn grown_bytes(bytes: Seq<u8>, capacity: nat) -> Seq<u8> {
    bytes + zeros((capacity - bytes.len()) as nat)
}

/// A block of bytes and the policy by which it grows.
///
/// The block is reached as a slice over all of it: where it begins and how
/// much it holds, in one value. The items of a storage are its bytes, so that
/// its capacity is the length of its block; [`region_len`] gives the length
/// of a block of wider items. A storage knows nothing of how much of the
/// block its owner has in use.
///
/// [`region_len`]: crate::erase::region_len
pub trait Storage: Sized {
    /// The least capacity that an index into this storage has to be able to
    /// count to: the capacity itself where the type fixes it, and zero where
    /// it is known only once the storage exists.
    const MIN_REPRESENTABLE: usize;

    /// The bytes of the block, first to last.
    spec fn bytes(&self) -> Seq<u8>;

    /// The capacity that a block of `capacity` bytes grows to when asked for
    /// at least `min_capacity`, or `None` where this strategy cannot meet the
    /// request.
    spec fn grown_capacity(capacity: nat, min_capacity: Option<usize>) -> Option<nat>;

    /// A block that grows does not shrink, and reaches the minimum asked for.
    proof fn lemma_grown_capacity(capacity: nat, min_capacity: Option<usize>)
        ensures
            Self::grown_capacity(capacity, min_capacity) matches Some(c) ==> {
                &&& c >= capacity
                &&& min_capacity matches Some(m) ==> c >= m
            },
    ;

    /// The number of bytes that the block holds.
    fn capacity(&self) -> (c: usize)
        ensures
            c == self.bytes().len(),
    ;

    /// The block, to read.
    fn get_ptr(&self) -> (block: &[u8])
        ensures
            block@ == self.bytes(),
    ;

    /// The block, to write. What is written through the slice is what the
    /// storage holds afterwards. This never unwinds: the erase on drop goes
    /// through it, and a destructor must not.
    fn get_mut_ptr(&mut self) -> (block: &mut [u8])
        ensures
            block@ == (*old(self)).bytes(),
            (*final(self)).bytes() == final(block)@,
        opens_invariants none
        no_unwind when true
    ;

    /// A new block, no smaller than this one, that starts with the bytes of
    /// this one and goes on with zeros. This block is left as it is. Fails,
    /// with this block untouched, exactly where the strategy's policy has no
    /// answer.
    fn try_grow(&self, min_capacity: Option<usize>) -> (r: Result<Self, CapacityError>)
        ensures
            match Self::grown_capacity(self.bytes().len(), min_capacity) {
                Some(c) => r matches Ok(s) && s.bytes() == grown_bytes(self.bytes(), c),
                None => r is Err,
            },
    ;
}

/// A storage that can make its own block.
pub trait OwnedStorage: Storage {
    /// The capacity of the block made on a request for at least
    /// `min_capacity` bytes, or `None` where none can be made.
    spec fn initial_capacity(min_capacity: usize) -> Option<nat>;

    /// A block that was made holds at least what was asked for.
    proof fn lemma_initial_capacity(min_capacity: usize)
        ensures
            Self::initial_capacity(min_capacity) matches Some(c) ==> c >= min_capacity,
    ;

    /// A storage over a fresh block of zeros.
    fn try_with_capacity(min_capacity: usize) -> (r: Result<Self, CapacityError>)
        ensures
            match Self::initial_capacity(min_capacity) {
                Some(c) => r matches Ok(s) && s.bytes() == zeros(c),
                None => r is Err,
            },
    ;
}

/// A block held in place, inside the value that owns it. It cannot grow.
pub type InlineStorage<const N: usize> = [u8; N];

impl<const N: usize> Storage for [u8; N] {
    const MIN_REPRESENTABLE: usize = N;

    open spec fn bytes(&self) -> Seq<u8> {
        self@
    }

    open spec fn grown_capacity(capacity: nat, min_capacity: Option<usize>) -> Option<nat> {
        None
    }

    proof fn lemma_grown_capacity(capacity: nat, min_capacity: Option<usize>) {
    }

    fn capacity(&self) -> (c: usize) {
        N
    }

    fn get_ptr(&self) -> (block: &[u8]) {
        self.as_slice()
    }

    fn get_mut_ptr(&mut self) -> (block: &mut [u8]) {
        self
    }

    fn try_grow(&self, min_capacity: Option<usize>) -> (r: Result<Self, CapacityError>) {
        Err(CapacityError)
    }
}

/// A block that the caller owns and lends for as long as the storage lives.
/// It cannot grow.
pub type SliceStorage<'a> = &'a mut [u8];

impl<'a> Storage for &'a mut [u8] {
    const MIN_REPRESENTABLE: usize = 0;

    open spec fn bytes(&self) -> Seq<u8> {
        self@
    }

    open spec fn grown_capacity(capacity: nat, min_capacity: Option<usize>) -> Option<nat> {
        None
    }

    proof fn lemma_grown_capacity(capacity: nat, min_capacity: Option<usize>) {
    }

    fn capacity(&self) -> (c: usize) {
        self.len()
    }

    fn get_ptr(&self) -> (block: &[u8]) {
        &**self
    }

    fn get_mut_ptr(&mut self) -> (block: &mut [u8]) {
        &mut **self
    }

    fn try_grow(&self, min_capacity: Option<usize>) -> (r: Result<Self, CapacityError>) {
        Err(CapacityError)
    }
}

/// A storage that is lent rather than handed over: its block is the block of
/// the storage behind the reference. A reference cannot be pointed at a new
/// block, so it cannot grow.
impl<'a, S: Storage> Storage for &'a mut S {
    const MIN_REPRESENTABLE: usize = S::MIN_REPRESENTABLE;

    open spec fn bytes(&self) -> Seq<u8> {
        (**self).bytes()
    }

    open spec fn grown_capacity(capacity: nat, min_capacity: Option<usize>) -> Option<nat> {
        None
    }

    proof fn lemma_grown_capacity(capacity: nat, min_capacity: Option<usize>) {
    }

    fn capacity(&self) -> (c: usize) {
        (**self).capacity()
    }

    fn get_ptr(&self) -> (block: &[u8]) {
        (**self).get_ptr()
    }

    fn get_mut_ptr(&mut self) -> (block: &mut [u8]) {
        (**self).get_mut_ptr()
    }

    fn try_grow(&self, min_capacity: Option<usize>) -> (r: Result<Self, CapacityError>) {
        Err(CapacityError)
    }
}

} // verus!
