use saga_stdlib::bump::{Bump, HEAP_SIZE};

#[test]
fn reserve_aligns_the_start() {
    assert_eq!(Bump::reserve(0, 0, 16, 8), Some((0, 16)));
    assert_eq!(Bump::reserve(0, 3, 10, 8), Some((8, 18)));
    assert_eq!(Bump::reserve(0, 8, 1, 8), Some((8, 9)));
    assert_eq!(Bump::reserve(0, 9, 4, 4), Some((12, 16)));
}

#[test]
fn reserve_aligns_the_address_not_the_offset() {
    // Heap at address 3: address 3 + 0 rounds up to 8, offset 5.
    assert_eq!(Bump::reserve(3, 0, 4, 8), Some((5, 9)));
    assert_eq!(Bump::reserve(0x1001, 0x10, 1, 0x100), Some((0xff, 0x100)));
    for base in [1usize, 2, 7, 4096, 12345] {
        for align in [1usize, 2, 4, 8, 16, 64, 4096] {
            let (start, end) = Bump::reserve(base, 5, 3, align).unwrap();
            assert_eq!((base + start) % align, 0);
            assert!(start >= 5 && start < 5 + align);
            assert_eq!(end, start + 3);
        }
    }
}

#[test]
fn reserve_treats_zero_alignment_as_one() {
    assert_eq!(Bump::reserve(0, 5, 3, 0), Some((5, 8)));
    assert_eq!(Bump::reserve(77, 0, 0, 0), Some((0, 0)));
}

#[test]
fn reserve_refuses_blocks_past_the_heap() {
    assert_eq!(Bump::reserve(0, HEAP_SIZE - 6, 10, 1), None);
    assert_eq!(Bump::reserve(0, 1, 8, 1 << 20), None);
    assert_eq!(Bump::reserve(0, 0, usize::MAX, 1), None);
    assert_eq!(Bump::reserve(0, HEAP_SIZE, 0, 1), Some((HEAP_SIZE, HEAP_SIZE)));
    assert_eq!(Bump::reserve(0, HEAP_SIZE - 10, 10, 2), Some((HEAP_SIZE - 10, HEAP_SIZE)));
    assert_eq!(Bump::reserve(usize::MAX - HEAP_SIZE, 1, 1, 1 << 40), None);
}

#[test]
fn blocks_do_not_overlap() {
    let (a, next) = Bump::reserve(0, 0, 3, 1).unwrap();
    let (b, next2) = Bump::reserve(0, next, 5, 4).unwrap();
    let (c, _) = Bump::reserve(0, next2, 2, 16).unwrap();
    assert_eq!((a, next), (0, 3));
    assert_eq!((b, next2), (4, 9));
    assert_eq!(c, 16);
}
