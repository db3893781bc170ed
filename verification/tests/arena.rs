use coca::arena::Arena;
use core::mem::MaybeUninit;
use zeroizing_storage::{ArenaStorage, Storage, ZArenaStorage, ZArrayStorage};

#[test]
fn arena_region_is_read_and_written_in_place() {
    let mut backing = [MaybeUninit::<u8>::uninit(); 64];
    let mut arena = Arena::from(&mut backing[..]);
    let mut stor = ArenaStorage::from(arena.array(7u8, 3));
    assert_eq!(stor.capacity(), 3);
    assert_eq!(stor.get_ptr(), [7, 7, 7]);
    stor.get_mut_ptr()[1] = 9;
    assert_eq!(stor.get_ptr(), [7, 9, 7]);
}

#[test]
fn arena_region_is_erased_on_request() {
    let mut backing = [MaybeUninit::<u8>::uninit(); 64];
    let mut arena = Arena::from(&mut backing[..]);
    let mut z = ZArenaStorage::from(ArenaStorage::from(arena.array(5u8, 4)));
    z.get_mut_ptr()[0] = 10;
    assert_eq!(z.capacity(), 4);
    assert_eq!(z.get_ptr(), [10, 5, 5, 5]);
    z.zeroize();
    assert_eq!(z.get_ptr(), [0, 0, 0, 0]);
    assert_eq!(z.capacity(), 4);
}

#[test]
fn arena_region_is_erased_on_drop_and_its_neighbours_are_not() {
    let mut backing = [MaybeUninit::<u8>::uninit(); 64];
    let mut arena = Arena::from(&mut backing[..]);
    let before = arena.array(1u8, 4);
    let mut carved = ArenaStorage::from(arena.array(2u8, 4));
    let after = arena.array(3u8, 4);
    {
        let z = ZArrayStorage::from(&mut carved);
        assert_eq!(z.get_ptr(), [2, 2, 2, 2]);
    }
    assert_eq!(carved.get_ptr(), [0, 0, 0, 0]);
    assert_eq!(&before[..], [1, 1, 1, 1]);
    assert_eq!(&after[..], [3, 3, 3, 3]);
}

#[test]
fn arena_region_refuses_growth() {
    let mut backing = [MaybeUninit::<u8>::uninit(); 64];
    let mut arena = Arena::from(&mut backing[..]);
    let z = ZArenaStorage::from(ArenaStorage::from(arena.array(4u8, 3)));
    assert!(z.try_grow(Some(4)).is_err());
    assert!(z.try_grow(None).is_err());
    assert!(z.try_grow(Some(2)).is_err());
    assert_eq!(z.get_ptr(), [4, 4, 4]);
}

#[test]
fn arena_region_of_no_bytes() {
    let mut backing = [MaybeUninit::<u8>::uninit(); 16];
    let mut arena = Arena::from(&mut backing[..]);
    let mut z = ZArenaStorage::from(ArenaStorage::from(arena.array(0u8, 0)));
    assert_eq!(z.capacity(), 0);
    z.zeroize();
    assert!(z.get_ptr().is_empty());
}
