use zeno::allocator::Allocator;
use zeno::allocator::AllocatorMode;
use zeno::allocator::ArenaAllocator;
use zeno::allocator::GeneralAllocator;
use zeno::array::Array;
use zeno::cstr::is_null_terminated;

#[test]
fn append_grows_by_doubling_and_keeps_contents() {
    let arr: Array<u64, _> = Array::new(GeneralAllocator::new());
    let mut arr = arr;
    assert_eq!(arr.len(), 0);
    assert_eq!(arr.capacity(), 0);

    let expected_caps = [1usize, 2, 4, 4, 8, 8, 8, 8];
    for k in 0..8u64 {
        assert!(arr.append(k * 10).is_ok());
        assert_eq!(arr.len(), k as usize + 1);
        assert_eq!(arr.capacity(), expected_caps[k as usize]);
        // Everything appended so far survived every growth step.
        let view = arr.as_view();
        for j in 0..=k as usize {
            assert_eq!(view[j], j as u64 * 10);
        }
    }
    // One region is outstanding: the buffer's own storage.
    assert_eq!(arr.allocator.outstanding(), 1);
}

#[test]
fn release_returns_the_storage() {
    let mut arr: Array<u8, _> = Array::new(GeneralAllocator::new());
    assert!(arr.append(1).is_ok());
    assert!(arr.append(2).is_ok());
    assert_eq!(arr.allocator.outstanding(), 1);

    arr.release();
    assert_eq!(arr.len(), 0);
    assert_eq!(arr.capacity(), 0);
    // No leaks at teardown: the allocator's account is back to zero.
    assert_eq!(arr.allocator.outstanding(), 0);
}

#[test]
fn release_without_storage_frees_nothing() {
    let mut arr: Array<u8, _> = Array::new(GeneralAllocator::new());
    arr.release();
    assert_eq!(arr.allocator.outstanding(), 0);
    // The buffer is usable again after a release.
    assert!(arr.append(5).is_ok());
    assert_eq!(*arr.as_view(), [5u8]);
}

#[test]
fn with_capacity_makes_room_up_front() {
    let arr = Array::with_capacity(GeneralAllocator::new(), 4);
    let mut arr: Array<u16, _> = arr.ok().expect("the general provider has room");
    assert_eq!(arr.len(), 0);
    assert_eq!(arr.capacity(), 4);
    assert_eq!(arr.allocator.outstanding(), 1);
    for k in 0..4u16 {
        assert!(arr.append(k).is_ok());
    }
    // No growth was needed within the pre-sized capacity.
    assert_eq!(arr.capacity(), 4);
    assert_eq!(*arr.as_view(), [0u16, 1, 2, 3]);
}

#[test]
fn arena_exhaustion_leaves_the_buffer_unchanged() {
    // Budget of 3 elements: the buffer can grow to capacity 1, then 2, and
    // the step to 4 must fail.
    let mut arr: Array<u8, _> = Array::new(ArenaAllocator::new(3));
    assert!(arr.append(11).is_ok());
    assert!(arr.append(22).is_ok());
    assert_eq!(arr.capacity(), 2);
    assert_eq!(arr.allocator.budget_left(), 0);

    let failed = arr.append(33);
    assert_eq!(failed, Err(33));
    assert_eq!(arr.len(), 2);
    assert_eq!(arr.capacity(), 2);
    assert_eq!(*arr.as_view(), [11u8, 22]);
}

#[test]
fn arena_free_all_restores_the_budget() {
    let mut arena: ArenaAllocator<u8> = ArenaAllocator::new(10);
    let first = arena.allocate(4).expect("within budget");
    let second = arena.allocate(6).expect("within budget");
    assert_eq!(first.cap, 4);
    assert_eq!(second.cap, 6);
    assert_eq!(arena.outstanding(), 2);
    assert_eq!(arena.budget_left(), 0);
    assert!(arena.allocate(1).is_none());

    arena.free_all();
    assert_eq!(arena.outstanding(), 0);
    assert_eq!(arena.budget_left(), 10);
    assert!(arena.allocate(1).is_some());
}

#[test]
fn arena_single_free_returns_nothing_to_the_pool() {
    let mut arena: ArenaAllocator<u8> = ArenaAllocator::new(5);
    let mut region = arena.allocate(5).expect("within budget");
    assert_eq!(arena.outstanding(), 1);
    arena.free(&mut region);
    assert_eq!(arena.outstanding(), 0);
    assert_eq!(region.cap, 0);
    // A bump provider reclaims nothing on a single free.
    assert_eq!(arena.budget_left(), 0);
}

#[test]
fn zero_size_request_issues_a_real_region() {
    let mut arena: ArenaAllocator<u8> = ArenaAllocator::new(2);
    let region = arena.allocate(0).expect("within budget");
    assert_eq!(region.cap, 1);
    assert_eq!(arena.budget_left(), 1);
    assert_eq!(arena.outstanding(), 1);
}

#[test]
fn growth_from_a_presized_buffer_doubles() {
    let arr = Array::with_capacity(GeneralAllocator::new(), 4);
    let mut arr: Array<u8, _> = arr.ok().expect("the general provider has room");
    for k in 0..5u8 {
        assert!(arr.append(k).is_ok());
    }
    assert_eq!(arr.capacity(), 8);
    assert_eq!(*arr.as_view(), [0u8, 1, 2, 3, 4]);
    // Still exactly one region outstanding: growth exchanges, it does not
    // duplicate.
    assert_eq!(arr.allocator.outstanding(), 1);
}

#[test]
fn mode_names() {
    let cases = [
        (AllocatorMode::Alloc, &b"ALLOC"[..]),
        (AllocatorMode::Resize, &b"RESIZE"[..]),
        (AllocatorMode::Free, &b"FREE"[..]),
        (AllocatorMode::FreeAll, &b"FREE_ALL"[..]),
    ];
    for (mode, expected) in cases {
        let name = mode.name();
        assert!(is_null_terminated(&name));
        assert_eq!(name.len(), expected.len());
        for (i, b) in expected.iter().enumerate() {
            assert_eq!(*name.index(i), *b);
        }
    }
}
