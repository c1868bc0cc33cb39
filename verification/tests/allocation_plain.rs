use rawmem::allocation::handle::RawArray;
use rawmem::allocation::model::ModelAlloc;
use rawmem::allocation::plain;
use rawmem::allocation::raw::RawAlloc;
use rawmem::allocation::request_size;
use rawmem::allocation::EMPTY_ADDR;

#[test]
fn request_size_exact() {
    assert_eq!(request_size(4, 5), 20);
    assert_eq!(request_size(1, 0), 0);
    assert_eq!(request_size(0, 7), 0);
}

#[test]
fn request_size_saturates_on_overflow() {
    assert_eq!(request_size(usize::MAX, 2), usize::MAX);
    assert_eq!(request_size(8, usize::MAX / 4), usize::MAX);
    assert_eq!(request_size(usize::MAX, 1), usize::MAX);
}

#[test]
fn saturated_request_reaches_the_allocator() {
    let mut a = ModelAlloc::new();
    let bytes = request_size(8, usize::MAX / 4);
    assert_eq!(bytes, usize::MAX);
    let addr = a.allocate(bytes, 8);
    assert_ne!(addr, 0);
    assert_eq!(a.outstanding_bytes(), usize::MAX as u128);
    a.deallocate(addr, bytes, 8);
    assert_eq!(a.outstanding_bytes(), 0);
}

#[test]
fn alloc_array_then_dealloc_array_leaks_nothing() {
    let mut a = ModelAlloc::new();
    let b: RawArray<u64> = plain::alloc_array(&mut a, 9).unwrap();
    assert_eq!(b.len(), 9);
    assert_eq!(a.outstanding_bytes(), 9 * 8);
    plain::dealloc_array(&mut a, b);
    assert_eq!(a.outstanding_bytes(), 0);
}

#[test]
fn round_trip_balances_for_every_allocator() {
    let mut a = ModelAlloc::new();
    plain::alloc_dealloc_round_trip::<u64, ModelAlloc>(&mut a, 3);
    assert_eq!(a.outstanding_bytes(), 0);
    let mut f = ModelAlloc::refusing_allocation();
    plain::alloc_dealloc_round_trip::<u8, ModelAlloc>(&mut f, 100);
    assert_eq!(f.outstanding_bytes(), 0);
    let mut z = ModelAlloc::refusing_allocation();
    plain::alloc_dealloc_round_trip::<(), ModelAlloc>(&mut z, 7);
    assert_eq!(z.outstanding_bytes(), 0);
}

#[test]
fn alloc_one_then_dealloc_leaks_nothing() {
    let mut a = ModelAlloc::new();
    let mut b = plain::alloc_one::<u32, ModelAlloc>(&mut a).unwrap();
    assert_eq!(a.outstanding_bytes(), 4);
    b.write(77u32);
    assert_eq!(*b.read(), 77);
    plain::dealloc(&mut a, b);
    assert_eq!(a.outstanding_bytes(), 0);
}

#[test]
fn alloc_array_fails_cleanly_on_exhausted_allocator() {
    let mut a = ModelAlloc::refusing_allocation();
    let r: Option<RawArray<u16>> = plain::alloc_array(&mut a, 3);
    assert!(r.is_none());
    assert_eq!(a.outstanding_bytes(), 0);
    let s = plain::alloc_one::<u16, ModelAlloc>(&mut a);
    assert!(s.is_none());
    assert_eq!(a.outstanding_bytes(), 0);
}

#[test]
fn zero_sized_ops_use_the_sentinel_and_never_touch_the_allocator() {
    let mut a = ModelAlloc::refusing_allocation();
    let one = plain::alloc_one::<(), ModelAlloc>(&mut a).unwrap();
    assert_eq!(one.addr(), EMPTY_ADDR);
    let mut b: RawArray<()> = plain::alloc_array(&mut a, 12).unwrap();
    assert_eq!(b.addr(), EMPTY_ADDR);
    assert_eq!(b.len(), 12);
    assert!(plain::realloc_array(&mut a, &mut b, 40));
    assert_eq!(b.addr(), EMPTY_ADDR);
    assert_eq!(b.len(), 40);
    assert!(plain::try_grow_inplace(&mut a, &mut b, 64));
    assert_eq!(b.addr(), EMPTY_ADDR);
    assert!(plain::try_shrink_inplace(&mut a, &mut b, 5));
    assert_eq!(b.addr(), EMPTY_ADDR);
    assert_eq!(b.len(), 5);
    plain::dealloc_array(&mut a, b);
    plain::dealloc(&mut a, one);
    assert_eq!(a.outstanding_bytes(), 0);
    plain::zero_sized_ops_are_trivial::<(), ModelAlloc>(&mut a, 2, 5);
    assert_eq!(a.outstanding_bytes(), 0);
}

#[test]
fn realloc_round_trip_reproduces_the_pattern() {
    let mut a = ModelAlloc::new();
    let len: usize = 6;
    let mut b: RawArray<u64> = plain::alloc_array(&mut a, len).unwrap();
    for i in 0..len {
        b.write(i, (i as u64) * 3 + 1);
    }
    assert!(plain::realloc_array(&mut a, &mut b, len * 2));
    assert_eq!(b.len(), len * 2);
    for i in 0..len {
        assert_eq!(*b.read(i), (i as u64) * 3 + 1);
    }
    for i in len..len * 2 {
        assert!(!b.is_init(i));
    }
    plain::dealloc_array(&mut a, b);
    assert_eq!(a.outstanding_bytes(), 0);
}

#[test]
fn refused_grow_leaves_content_intact() {
    let mut a = ModelAlloc::refusing_inplace();
    let mut b: RawArray<u8> = plain::alloc_array(&mut a, 4).unwrap();
    for i in 0..4 {
        b.write(i, 10 + i as u8);
    }
    let addr = b.addr();
    assert!(!plain::try_grow_inplace(&mut a, &mut b, 8));
    assert_eq!(b.addr(), addr);
    assert_eq!(b.len(), 4);
    for i in 0..4 {
        assert_eq!(*b.read(i), 10 + i as u8);
    }
    assert_eq!(a.outstanding_bytes(), 4);
    plain::dealloc_array(&mut a, b);
    assert_eq!(a.outstanding_bytes(), 0);
}

#[test]
fn grow_in_place_keeps_address_and_content() {
    let mut a = ModelAlloc::new();
    let mut b: RawArray<u32> = plain::alloc_array(&mut a, 2).unwrap();
    b.write(0, 5);
    b.write(1, 6);
    let addr = b.addr();
    assert!(plain::try_grow_inplace(&mut a, &mut b, 5));
    assert_eq!(b.addr(), addr);
    assert_eq!(b.len(), 5);
    assert_eq!(*b.read(0), 5);
    assert_eq!(*b.read(1), 6);
    assert!(!b.is_init(2));
    assert_eq!(a.outstanding_bytes(), 5 * 4);
    plain::dealloc_array(&mut a, b);
    assert_eq!(a.outstanding_bytes(), 0);
}

#[test]
fn shrink_succeeds_only_with_the_exact_fresh_usable_size() {
    let mut a = ModelAlloc::new();
    let mut b: RawArray<u16> = plain::alloc_array(&mut a, 8).unwrap();
    assert!(plain::try_shrink_inplace(&mut a, &mut b, 3));
    assert_eq!(b.len(), 3);
    assert_eq!(a.outstanding_bytes(), 3 * 2);
    // The shrunk block's bookkeeping matches a fresh allocation's usable
    // size exactly.
    assert_eq!(a.usable_size(3 * 2, 2), 3 * 2);
    plain::dealloc_array(&mut a, b);

    let mut c = ModelAlloc::refusing_inplace();
    let mut d: RawArray<u16> = plain::alloc_array(&mut c, 8).unwrap();
    d.write(0, 9);
    assert!(!plain::try_shrink_inplace(&mut c, &mut d, 3));
    assert_eq!(d.len(), 8);
    assert_eq!(*d.read(0), 9);
    assert_eq!(c.outstanding_bytes(), 8 * 2);
    plain::dealloc_array(&mut c, d);
    assert_eq!(c.outstanding_bytes(), 0);
}

#[test]
fn scenario_write_shrink_then_realloc() {
    let mut a = ModelAlloc::new();
    let mut b: RawArray<i32> = plain::alloc_array(&mut a, 4).unwrap();
    b.write(0, 1);
    b.write(1, 2);
    b.write(2, 3);
    b.write(3, 4);
    assert!(plain::try_shrink_inplace(&mut a, &mut b, 2));
    assert_eq!(b.len(), 2);
    assert_eq!(*b.read(0), 1);
    assert_eq!(*b.read(1), 2);
    assert!(plain::realloc_array(&mut a, &mut b, 8));
    assert_eq!(b.len(), 8);
    assert_eq!(*b.read(0), 1);
    assert_eq!(*b.read(1), 2);
    plain::dealloc_array(&mut a, b);
    assert_eq!(a.outstanding_bytes(), 0);
}
