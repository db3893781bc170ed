use zeroizing_storage::{
    AllocStorage, CapacityError, OwnedStorage, ReallocStorage, Storage, ZAllocStorage,
    ZArrayStorage, ZReallocStorage,
};

#[test]
fn heap_block_starts_zeroed() {
    let a = AllocStorage::try_with_capacity(5).unwrap();
    assert_eq!(a.capacity(), 5);
    assert_eq!(a.get_ptr(), [0u8; 5]);
    let r = ReallocStorage::try_with_capacity(7).unwrap();
    assert_eq!(r.capacity(), 7);
    assert_eq!(r.get_ptr(), [0u8; 7]);
    let z = ZAllocStorage::try_with_capacity(3).unwrap();
    assert_eq!(z.capacity(), 3);
    assert_eq!(z.get_ptr(), [0u8; 3]);
}

#[test]
fn heap_block_of_no_bytes() {
    let z = ZReallocStorage::try_with_capacity(0).unwrap();
    assert_eq!(z.capacity(), 0);
    assert!(z.get_ptr().is_empty());
}

#[test]
fn heap_block_too_long_to_exist() {
    let too_long = isize::MAX as usize + 1;
    assert!(matches!(AllocStorage::try_with_capacity(too_long), Err(CapacityError)));
    assert!(matches!(ReallocStorage::try_with_capacity(usize::MAX), Err(CapacityError)));
    assert!(matches!(ZAllocStorage::try_with_capacity(too_long), Err(CapacityError)));
    assert!(matches!(ZReallocStorage::try_with_capacity(usize::MAX), Err(CapacityError)));
}

#[test]
fn fixed_heap_block_refuses_growth() {
    let mut z = ZAllocStorage::try_with_capacity(3).unwrap();
    z.get_mut_ptr().copy_from_slice(&[1, 2, 3]);
    assert!(matches!(z.try_grow(Some(4)), Err(CapacityError)));
    assert!(matches!(z.try_grow(None), Err(CapacityError)));
    assert!(matches!(z.try_grow(Some(1)), Err(CapacityError)));
    assert_eq!(z.get_ptr(), [1, 2, 3]);
}

#[test]
fn fixed_heap_block_is_erased_on_request() {
    let mut z = ZAllocStorage::try_with_capacity(4).unwrap();
    z.get_mut_ptr().copy_from_slice(&[1, 2, 3, 4]);
    z.zeroize();
    assert_eq!(z.get_ptr(), [0, 0, 0, 0]);
}

#[test]
fn growth_doubles_or_goes_to_what_is_asked() {
    let empty = ReallocStorage::try_with_capacity(0).unwrap();
    assert_eq!(empty.try_grow(None).unwrap().capacity(), 1);
    assert_eq!(empty.try_grow(Some(0)).unwrap().capacity(), 0);
    assert_eq!(empty.try_grow(Some(5)).unwrap().capacity(), 5);
    let three = ReallocStorage::try_with_capacity(3).unwrap();
    assert_eq!(three.try_grow(None).unwrap().capacity(), 6);
    assert_eq!(three.try_grow(Some(4)).unwrap().capacity(), 6);
    assert_eq!(three.try_grow(Some(6)).unwrap().capacity(), 6);
    assert_eq!(three.try_grow(Some(10)).unwrap().capacity(), 10);
    assert_eq!(three.try_grow(Some(2)).unwrap().capacity(), 6);
    let one = ZReallocStorage::try_with_capacity(1).unwrap();
    assert_eq!(one.try_grow(None).unwrap().capacity(), 2);
}

#[test]
fn growth_beyond_any_block_is_refused() {
    let three = ZReallocStorage::try_with_capacity(3).unwrap();
    assert!(matches!(three.try_grow(Some(usize::MAX)), Err(CapacityError)));
    assert!(matches!(three.try_grow(Some(isize::MAX as usize + 1)), Err(CapacityError)));
    assert_eq!(three.capacity(), 3);
}

#[test]
fn growth_keeps_the_bytes_and_adds_zeros() {
    let mut old = ZReallocStorage::try_with_capacity(3).unwrap();
    old.get_mut_ptr().copy_from_slice(&[1, 2, 3]);
    let grown = old.try_grow(Some(5)).unwrap();
    assert_eq!(grown.capacity(), 6);
    assert_eq!(grown.get_ptr(), [1, 2, 3, 0, 0, 0]);
    // The old block is as it was until its wrapper erases it.
    assert_eq!(old.get_ptr(), [1, 2, 3]);
    old.zeroize();
    assert_eq!(old.get_ptr(), [0, 0, 0]);
    assert_eq!(grown.get_ptr(), [1, 2, 3, 0, 0, 0]);
}

#[test]
fn superseded_block_is_erased_when_released() {
    let mut first = ReallocStorage::try_with_capacity(3).unwrap();
    first.get_mut_ptr().copy_from_slice(&[1, 2, 3]);
    let grown = ZArrayStorage::from(first.try_grow(Some(4)).unwrap());
    {
        let old = ZArrayStorage::from(&mut first);
        assert_eq!(old.get_ptr(), [1, 2, 3]);
    }
    assert_eq!(first.get_ptr(), [0, 0, 0]);
    assert_eq!(grown.get_ptr(), [1, 2, 3, 0, 0, 0]);
}

#[test]
fn whole_capacity_is_erased_after_growth() {
    let mut stor = ZReallocStorage::try_with_capacity(2).unwrap();
    stor.get_mut_ptr().copy_from_slice(&[1, 2]);
    stor = stor.try_grow(None).unwrap();
    assert_eq!(stor.capacity(), 4);
    stor.get_mut_ptr()[2] = 3;
    stor.get_mut_ptr()[3] = 4;
    assert_eq!(stor.get_ptr(), [1, 2, 3, 4]);
    stor.zeroize();
    assert_eq!(stor.get_ptr(), vec![0u8; stor.capacity()]);
}
