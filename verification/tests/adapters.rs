use zeroizing_alloc::allocator::Allocator;
use zeroizing_alloc::allocator::GlobalAlloc;
use zeroizing_alloc::bump::BumpAllocator;
use zeroizing_alloc::layout::Layout;
use zeroizing_alloc::memory::zero;
use zeroizing_alloc::memory::Memory;
use zeroizing_alloc::zeroizing::ZeroizingAllocator;
use zeroizing_alloc::zeroizing::ZeroizingGlobalAllocator;

/// The original acceptance check, replayed against the model arena: a
/// vector of capacity 2 gets the bytes 0xde, 0xad, grows to capacity 4 (a
/// new block; the old one is copied over and freed) and then receives
/// 0xbe, 0xef.  The old buffer must read as zero once freed, the live one
/// must hold all four bytes, and after the vector is dropped its buffer
/// must read as zero too.
#[test]
fn test_static() {
    let mut g = ZeroizingGlobalAllocator(BumpAllocator::new(64));
    let two = Layout { size: 2, align: 1 };
    let four = Layout { size: 4, align: 1 };

    let ptr1 = g.alloc_raw(two);
    assert_ne!(ptr1, 0);
    g.write_byte(ptr1, 0xde);
    g.write_byte(ptr1 + 1, 0xad);

    // Grow: move the two bytes into a fresh 4-byte block, free the old one.
    let ptr2 = g.alloc_raw(four);
    assert_ne!(ptr2, 0);
    let lo = g.read_byte(ptr1);
    let hi = g.read_byte(ptr1 + 1);
    g.write_byte(ptr2, lo);
    g.write_byte(ptr2 + 1, hi);
    g.dealloc(ptr1, two);
    g.write_byte(ptr2 + 2, 0xbe);
    g.write_byte(ptr2 + 3, 0xef);

    let held = [
        g.read_byte(ptr2),
        g.read_byte(ptr2 + 1),
        g.read_byte(ptr2 + 2),
        g.read_byte(ptr2 + 3),
    ];
    assert_eq!(&[0xde, 0xad, 0xbe, 0xef], &held[..]);
    assert_eq!(g.read_byte(ptr1), 0);
    g.dealloc(ptr2, four);
    assert_eq!(g.read_byte(ptr2), 0);
}

/// Allocate a 4-byte block, fill it with 0xde 0xad 0xbe 0xef, read it back
/// through the block's address, free it, and read the same address again:
/// first the bytes as written, then all zero.
#[test]
fn scoped_free_reads_zero() {
    let mut z = ZeroizingAllocator(BumpAllocator::new(64));
    let four = Layout { size: 4, align: 1 };
    let addr = z.allocate(four).unwrap();
    z.write_byte(addr, 0xde);
    z.write_byte(addr + 1, 0xad);
    z.write_byte(addr + 2, 0xbe);
    z.write_byte(addr + 3, 0xef);
    let before = [
        z.read_byte(addr),
        z.read_byte(addr + 1),
        z.read_byte(addr + 2),
        z.read_byte(addr + 3),
    ];
    assert_eq!(before, [0xde, 0xad, 0xbe, 0xef]);
    z.deallocate(addr, four);
    let after = [
        z.read_byte(addr),
        z.read_byte(addr + 1),
        z.read_byte(addr + 2),
        z.read_byte(addr + 3),
    ];
    assert_eq!(after, [0x00, 0x00, 0x00, 0x00]);
}

/// Freeing one block wipes that block alone: block A reads as zero after
/// its free, block B keeps its bytes untouched.
#[test]
fn free_leaves_other_blocks_alone() {
    let mut z = ZeroizingAllocator(BumpAllocator::new(64));
    let eight = Layout { size: 8, align: 1 };
    let a = z.allocate(eight).unwrap();
    let b = z.allocate(eight).unwrap();
    for i in 0..8 {
        z.write_byte(a + i, 0x11);
        z.write_byte(b + i, 0x77);
    }
    z.deallocate(a, eight);
    for i in 0..8 {
        assert_eq!(z.read_byte(a + i), 0x00);
        assert_eq!(z.read_byte(b + i), 0x77);
    }
}

/// A zero-sized allocation succeeds, and deallocating it performs zero
/// writes over zero bytes: every byte of the arena is as before, and
/// nothing faults.
#[test]
fn zero_sized_block_is_a_no_op() {
    let mut z = ZeroizingAllocator(BumpAllocator::new(32));
    let one = Layout { size: 1, align: 1 };
    let none = Layout { size: 0, align: 1 };
    let a = z.allocate(one).unwrap();
    z.write_byte(a, 0x5a);
    let e = z.allocate(none).unwrap();
    z.deallocate(e, none);
    assert_eq!(z.read_byte(a), 0x5a);
    assert_eq!(z.read_byte(e), 0x00);
    // The zero-sized block reserved one byte of its own: the next block
    // starts behind it, so no two blocks ever share an address.
    let f = z.allocate(one).unwrap();
    assert_eq!(f, e + 1);
}

/// The wipe does not depend on what the block holds: blocks filled with
/// different contents all read back as the same zero bytes once freed.
#[test]
fn wipe_ignores_contents() {
    let mut z = ZeroizingAllocator(BumpAllocator::new(64));
    let four = Layout { size: 4, align: 1 };
    let a = z.allocate(four).unwrap();
    let b = z.allocate(four).unwrap();
    for i in 0..4 {
        z.write_byte(a + i, 0xff);
        z.write_byte(b + i, (i as u8) + 1);
    }
    z.deallocate(a, four);
    z.deallocate(b, four);
    for i in 0..4 {
        assert_eq!(z.read_byte(a + i), 0x00);
        assert_eq!(z.read_byte(b + i), 0x00);
    }
}

/// The zero primitive itself: wipes exactly the requested range, and a
/// zero-length wipe writes nothing.
#[test]
fn zero_primitive_range_and_empty() {
    let mut b = BumpAllocator::new(32);
    let six = Layout { size: 6, align: 1 };
    let addr = b.allocate(six).unwrap();
    for i in 0..6 {
        b.write_byte(addr + i, 0xab);
    }
    zero(&mut b, addr + 1, 4);
    assert_eq!(b.read_byte(addr), 0xab);
    for i in 1..5 {
        assert_eq!(b.read_byte(addr + i), 0x00);
    }
    assert_eq!(b.read_byte(addr + 5), 0xab);
    zero(&mut b, addr, 0);
    assert_eq!(b.read_byte(addr), 0xab);
    assert_eq!(b.read_byte(addr + 5), 0xab);
}

/// Allocation is forwarded unchanged: the scoped adapter hands out the
/// same aligned addresses the bare arena would, and alignment requests are
/// honored.
#[test]
fn allocation_is_delegated_and_aligned() {
    let mut z = ZeroizingAllocator(BumpAllocator::new(64));
    let one = Layout { size: 1, align: 1 };
    let aligned8 = Layout { size: 8, align: 8 };
    let first = z.allocate(one).unwrap();
    assert_eq!(first, 1);
    let second = z.allocate(aligned8).unwrap();
    assert_eq!(second % 8, 0);
    assert_eq!(second, 8);
}

/// Allocation failure propagates unchanged: a request the arena cannot
/// hold is `None` through the scoped adapter and the 0 sentinel through
/// the process-wide adapter, and a failed request changes nothing.
#[test]
fn failure_propagates_unchanged() {
    let mut z = ZeroizingAllocator(BumpAllocator::new(16));
    let big = Layout { size: 32, align: 1 };
    let one = Layout { size: 1, align: 1 };
    assert_eq!(z.allocate(big), None);
    let a = z.allocate(one).unwrap();
    assert_eq!(a, 1);

    let mut g = ZeroizingGlobalAllocator(BumpAllocator::new(16));
    assert_eq!(g.alloc_raw(big), 0);
    assert_eq!(g.alloc_raw(one), 1);
}

/// `alloc_zeroed` is forwarded unchanged and returns a block of zero
/// bytes.
#[test]
fn alloc_zeroed_returns_zero_bytes() {
    let mut g = ZeroizingGlobalAllocator(BumpAllocator::new(64));
    let eight = Layout { size: 8, align: 1 };
    let a = g.alloc_zeroed(eight);
    assert_ne!(a, 0);
    for i in 0..8 {
        assert_eq!(g.read_byte(a + i), 0x00);
    }
}

/// Adapters compose: one adapter wrapped in another still allocates and
/// still zeroes on free.
#[test]
fn adapters_compose() {
    let mut z = ZeroizingAllocator(ZeroizingAllocator(BumpAllocator::new(64)));
    let four = Layout { size: 4, align: 1 };
    let a = z.allocate(four).unwrap();
    for i in 0..4 {
        z.write_byte(a + i, 0xc3);
    }
    z.deallocate(a, four);
    for i in 0..4 {
        assert_eq!(z.read_byte(a + i), 0x00);
    }
}

/// A descriptor is valid exactly when its alignment is a power of two;
/// the size does not matter.
#[test]
fn descriptor_validity() {
    for align in [1usize, 2, 4, 8, 64, 4096] {
        assert!(Layout { size: 0, align }.is_valid());
        assert!(Layout { size: 17, align }.is_valid());
    }
    for align in [0usize, 3, 6, 12, 4095, usize::MAX] {
        assert!(!Layout { size: 1, align }.is_valid());
    }
}

/// A fresh arena reads as zero and hands out its low addresses first,
/// keeping address 0 as the failure sentinel.
#[test]
fn fresh_arena_is_zero() {
    let b = BumpAllocator::new(8);
    for i in 0..8 {
        assert_eq!(b.read_byte(i), 0x00);
    }
}
