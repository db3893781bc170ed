//! The secure overwrite, and the extent of what it covers.

use vstd::prelude::*;
use zeroize::Zeroize;

verus! {

/// `n` bytes, each of them zero.
pub open spec fn zeros(n: nat) -> Seq<u8> {
    Seq::new(n, |i: int| 0u8)
}

/// What an erase leaves of a block: as many bytes as before, each of them zero.
pub open spec fn erased(bytes: Seq<u8>) -> Seq<u8> {
    zeros(bytes.len())
}

/// The largest number of bytes that one object in memory can span.
pub open spec fn max_region_len() -> nat {
    isize::MAX as nat
}

/// The length in bytes of a block of `capacity` items of `item_size` bytes
/// each, where a block of that length can exist.
pub open spec fn spec_region_len(capacity: nat, item_size: nat) -> Option<usize> {
    if capacity * item_size <= max_region_len() {
        Some((capacity * item_size) as usize)
    } else {
        None
    }
}

/// Calls `<[u8] as zeroize::Zeroize>::zeroize`. It writes `u8::default()`,
/// which is zero, to every element of the slice, by volatile writes that the
/// compiler may not drop, and leaves the length as it is. It panics only on a
/// slice of more than `isize::MAX` elements, and no slice is that long.
#[verifier::external_body]
fn wipe(region: &mut [u8])
    ensures
        final(region)@ == erased(old(region)@),
    opens_invariants none
    no_unwind
{
    region.zeroize();
}

/// Overwrites every byte of `region` with zero, in a way that the compiler
/// cannot elide even though nothing reads the region afterwards.
pub fn erase(region: &mut [u8])
    ensures
        final(region)@ == erased(old(region)@),
    opens_invariants none
    no_unwind
{
    wipe(region);
}

/// The number of bytes that `capacity` items of `item_size` bytes take up,
/// starting at a block's first byte: the extent that an erase has to cover.
/// `None` where no block can be that long.
pub fn region_len(capacity: usize, item_size: usize) -> (len: Option<usize>)
    ensures
        len == spec_region_len(capacity as nat, item_size as nat),
{
    match capacity.checked_mul(item_size) {
        Some(len) => {
            if len <= isize::MAX as usize {
                Some(len)
            } else {
                None
            }
        },
        None => None,
    }
}

/// Every byte of an erased block is zero, and the block is as long as before.
pub proof fn lemma_erased_is_zero(bytes: Seq<u8>)
    ensures
        erased(bytes).len() == bytes.len(),
        forall|i: int| 0 <= i < bytes.len() ==> #[trigger] erased(bytes)[i] == 0u8,
{
}

/// Erasing is idempotent: a second erase, with nothing written in between,
/// leaves the block as the first one left it.
pub proof fn lemma_erase_idempotent(bytes: Seq<u8>)
    ensures
        erased(erased(bytes)) == erased(bytes),
{
}

} // verus!
