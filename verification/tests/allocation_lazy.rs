use rawmem::allocation::handle::RawArray;
use rawmem::allocation::lazy;
use rawmem::allocation::model::ModelAlloc;
use rawmem::allocation::EMPTY_ADDR;

#[test]
fn lazy_alloc_array_then_dealloc_array_leaks_nothing() {
    let mut a = ModelAlloc::new();
    let mut b: RawArray<u64> = lazy::alloc_array(&mut a, 5);
    assert_eq!(b.len(), 5);
    assert_eq!(a.outstanding_bytes(), 5 * 8);
    b.write(4, 123);
    assert_eq!(*b.read(4), 123);
    lazy::dealloc_array(&mut a, b);
    assert_eq!(a.outstanding_bytes(), 0);
}

#[test]
fn lazy_alloc_one_then_dealloc_leaks_nothing() {
    let mut a = ModelAlloc::new();
    let mut b = lazy::alloc_one::<i64, ModelAlloc>(&mut a);
    assert_eq!(a.outstanding_bytes(), 8);
    b.write(-3);
    assert_eq!(*b.read(), -3);
    lazy::dealloc(&mut a, b);
    assert_eq!(a.outstanding_bytes(), 0);
}

#[test]
fn lazy_realloc_preserves_the_prefix() {
    let mut a = ModelAlloc::new();
    let mut b: RawArray<u8> = lazy::alloc_array(&mut a, 3);
    b.write(0, 7);
    b.write(1, 8);
    b.write(2, 9);
    lazy::realloc_array(&mut a, &mut b, 6);
    assert_eq!(b.len(), 6);
    assert_eq!(*b.read(0), 7);
    assert_eq!(*b.read(1), 8);
    assert_eq!(*b.read(2), 9);
    assert!(!b.is_init(3));
    lazy::dealloc_array(&mut a, b);
    assert_eq!(a.outstanding_bytes(), 0);
}

#[test]
fn lazy_inplace_probes_report_failure_instead_of_aborting() {
    let mut a = ModelAlloc::refusing_inplace();
    let mut b: RawArray<u32> = lazy::alloc_array(&mut a, 2);
    b.write(0, 11);
    assert!(!lazy::try_grow_inplace(&mut a, &mut b, 4));
    assert!(!lazy::try_shrink_inplace(&mut a, &mut b, 1));
    assert_eq!(b.len(), 2);
    assert_eq!(*b.read(0), 11);
    lazy::dealloc_array(&mut a, b);
    assert_eq!(a.outstanding_bytes(), 0);
}

#[test]
fn lazy_zero_sized_ops_use_the_sentinel() {
    let mut a = ModelAlloc::refusing_allocation();
    let mut b: RawArray<()> = lazy::alloc_array(&mut a, 4);
    assert_eq!(b.addr(), EMPTY_ADDR);
    lazy::realloc_array(&mut a, &mut b, 9);
    assert_eq!(b.addr(), EMPTY_ADDR);
    assert_eq!(b.len(), 9);
    assert!(lazy::try_grow_inplace(&mut a, &mut b, 12));
    assert!(lazy::try_shrink_inplace(&mut a, &mut b, 2));
    lazy::dealloc_array(&mut a, b);
    let one = lazy::alloc_one::<(), ModelAlloc>(&mut a);
    assert_eq!(one.addr(), EMPTY_ADDR);
    lazy::dealloc(&mut a, one);
    assert_eq!(a.outstanding_bytes(), 0);
}
