//! A storage whose block is a region carved from a `coca` arena. The arena
//! owns the memory; the storage owns the region, and nothing beyond it.

use crate::storage::{CapacityError, Storage};
use vstd::prelude::*;

verus! {

/// `coca::arena::Box`, the owning pointer to an allocation in an arena.
#[verifier::external_type_specification]
#[verifier::external_body]
#[verifier::reject_recursive_types(T)]
pub struct ExArenaBox<'src, T: ?Sized>(coca::arena::Box<'src, T>);

/// The bytes of the slice that an arena box points to, first to last.
pub uninterp spec fn region_bytes(region: coca::arena::Box<[u8]>) -> Seq<u8>;

/// Calls `Deref::deref` on a `coca::arena::Box`, which hands out a shared
/// reference to the slice that the box points to.
#[verifier::external_body]
fn region_ref<'a, 'src>(region: &'a coca::arena::Box<'src, [u8]>) -> (block: &'a [u8])
    ensures
        block@ == region_bytes(*region),
{
    &**region
}

/// Calls `DerefMut::deref_mut` on a `coca::arena::Box`, which hands out a
/// mutable reference to the slice that the box points to: what is written
/// through it is what the box points to afterwards. It does not panic.
#[verifier::external_body]
fn region_mut<'a, 'src>(region: &'a mut coca::arena::Box<'src, [u8]>) -> (block: &'a mut [u8])
    ensures
        block@ == region_bytes(*old(region)),
        final(block)@ == region_bytes(*final(region)),
    opens_invariants none
    no_unwind
{
    &mut **region
}

/// A region carved from an arena. It cannot grow: an arena hands out what it
/// has once, front to back.
pub struct ArenaStorage<'src> {
    region: coca::arena::Box<'src, [u8]>,
}

impl<'src> View for ArenaStorage<'src> {
    type V = Seq<u8>;

    closed spec fn view(&self) -> Seq<u8> {
        region_bytes(self.region)
    }
}

impl<'src> From<coca::arena::Box<'src, [u8]>> for ArenaStorage<'src> {
    /// A storage over `region`, with the bytes that it holds.
    fn from(region: coca::arena::Box<'src, [u8]>) -> (s: Self)
        ensures
            s@ == region_bytes(region),
    {
        ArenaStorage { region }
    }
}

impl<'src> vstd::std_specs::convert::FromSpecImpl<coca::arena::Box<'src, [u8]>> for ArenaStorage<'src> {
    open spec fn obeys_from_spec() -> bool {
        true
    }

    closed spec fn from_spec(region: coca::arena::Box<'src, [u8]>) -> Self {
        ArenaStorage { region }
    }
}

impl<'src> Storage for ArenaStorage<'src> {
    const MIN_REPRESENTABLE: usize = 0;

    open spec fn bytes(&self) -> Seq<u8> {
        self@
    }

    open spec fn grown_capacity(capacity: nat, min_capacity: Option<usize>) -> Option<nat> {
        None
    }

    proof fn lemma_grown_capacity(capacity: nat, min_capacity: Option<usize>) {
    }

    fn capacity(&self) -> (c: usize) {
        region_ref(&self.region).len()
    }

    fn get_ptr(&self) -> (block: &[u8]) {
        region_ref(&self.region)
    }

    fn get_mut_ptr(&mut self) -> (block: &mut [u8]) {
        region_mut(&mut self.region)
    }

    fn try_grow(&self, min_capacity: Option<usize>) -> (r: Result<Self, CapacityError>) {
        Err(CapacityError)
    }
}

} // verus!
