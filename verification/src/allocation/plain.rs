//! Plain-mode facade: no operation ever aborts the process. Failure is
//! surfaced as `None` or `false`, and a failed operation leaves the handle,
//! its contents, and the allocator's outstanding total unchanged.

use vstd::layout::layout_for_type_is_valid;
use vstd::layout::size_of;
use vstd::pervasive::unreached;
use vstd::prelude::*;

use crate::allocation::handle::RawArray;
use crate::allocation::handle::RawBox;
use crate::allocation::handle::spec_resized;
use crate::allocation::handle::spec_uninit;
use crate::allocation::lemma_request_size_monotone;
use crate::allocation::raw::RawAlloc;
use crate::allocation::request_size;
use crate::allocation::spec_request_size;
use crate::allocation::EMPTY_ADDR;

verus! {

/// Allocates storage for a single element of type `T`. Zero-sized types get
/// the sentinel handle without any allocator involvement; otherwise the
/// allocator is asked for `size_of::<T>()` bytes at `T`'s alignment, and
/// `None` reports its failure.
pub fn alloc_one<T, A: RawAlloc>(a: &mut A) -> (r: Option<RawBox<T>>)
    ensures
        match r {
            Some(b) => {
                &&& b.wf()
                &&& b@ is None
                &&& (size_of::<T>() == 0 ==> b.spec_addr() == EMPTY_ADDR && *final(a) == *old(a))
                &&& (size_of::<T>() != 0 ==> final(a).outstanding() == old(a).outstanding()
                    + size_of::<T>())
            },
            None => {
                &&& size_of::<T>() != 0
                &&& final(a).outstanding() == old(a).outstanding()
            },
        },
{
    layout_for_type_is_valid::<T>();
    let size = core::mem::size_of::<T>();
    if size == 0 {
        Some(RawBox::from_parts(EMPTY_ADDR))
    } else {
        let align = core::mem::align_of::<T>();
        let addr = a.allocate(size, align);
        if addr == 0 {
            None
        } else {
            Some(RawBox::from_parts(addr))
        }
    }
}

/// Allocates storage for `len` elements of type `T`, all slots
/// uninitialized. The byte request saturates to `usize::MAX` on overflow, so
/// an overflowing request reaches the allocator as a guaranteed-to-fail
/// maximum rather than a wrapped-around small number. Zero-sized types get
/// the sentinel handle for any `len`.
pub fn alloc_array<T, A: RawAlloc>(a: &mut A, len: usize) -> (r: Option<RawArray<T>>)
    requires
        len > 0,
    ensures
        match r {
            Some(b) => {
                &&& b.wf()
                &&& b@ == spec_uninit::<T>(len as nat)
                &&& (size_of::<T>() == 0 ==> b.spec_addr() == EMPTY_ADDR && *final(a) == *old(a))
                &&& (size_of::<T>() != 0 ==> final(a).outstanding() == old(a).outstanding()
                    + spec_request_size(size_of::<T>(), len as nat))
            },
            None => {
                &&& size_of::<T>() != 0
                &&& final(a).outstanding() == old(a).outstanding()
            },
        },
{
    layout_for_type_is_valid::<T>();
    let size = core::mem::size_of::<T>();
    if size == 0 {
        Some(RawArray::from_parts(EMPTY_ADDR, len))
    } else {
        let align = core::mem::align_of::<T>();
        let desired = request_size(size, len);
        proof {
            assert((size as nat) * (len as nat) >= 1) by (nonlinear_arith)
                requires
                    size >= 1,
                    len >= 1,
            ;
        }
        let addr = a.allocate(desired, align);
        if addr == 0 {
            None
        } else {
            Some(RawArray::from_parts(addr, len))
        }
    }
}

/// Resizes the allocation behind `b` to fit `len` elements, moving it if
/// need be. On success the shared prefix of the contents is preserved and
/// any new slots are uninitialized; on failure the handle and its contents
/// are untouched and remain valid at the old length. Zero-sized types
/// trivially succeed with the sentinel unchanged.
pub fn realloc_array<T, A: RawAlloc>(a: &mut A, b: &mut RawArray<T>, len: usize) -> (ok: bool)
    requires
        old(b).wf(),
        len > 0,
        size_of::<T>() != 0 ==> spec_request_size(size_of::<T>(), old(b)@.len()) <= old(a).outstanding(),
    ensures
        final(b).wf(),
        size_of::<T>() == 0 ==> ok && *final(a) == *old(a) && final(b).spec_addr() == old(b).spec_addr() && final(b)@ == spec_resized(old(b)@, len as nat),
        size_of::<T>() != 0 && ok ==> final(b)@ == spec_resized(old(b)@, len as nat) && final(a).outstanding() == old(a).outstanding() - spec_request_size(
            size_of::<T>(),
            old(b)@.len(),
        ) + spec_request_size(size_of::<T>(), len as nat),
        size_of::<T>() != 0 && !ok ==> *final(b) == *old(b) && final(a).outstanding() == old(a).outstanding(),
{
    layout_for_type_is_valid::<T>();
    let size = core::mem::size_of::<T>();
    if size == 0 {
        b.resize_slots(len);
        return true;
    }
    let align = core::mem::align_of::<T>();
    let old_len = b.len();
    let old_bytes = request_size(size, old_len);
    let desired = request_size(size, len);
    proof {
        assert((size as nat) * (old_len as nat) >= 1 && (size as nat) * (len as nat) >= 1)
            by (nonlinear_arith)
            requires
                size >= 1,
                old_len >= 1,
                len >= 1,
        ;
    }
    let addr = a.reallocate(b.addr(), old_bytes, desired, align);
    if addr == 0 {
        false
    } else {
        b.set_addr(addr);
        b.resize_slots(len);
        true
    }
}

/// Tries to grow the allocation behind `b` in place to fit `len` elements.
/// The allocator must report a usable size at or above the target for the
/// attempt to count as success; otherwise the handle, its contents and the
/// allocator total are untouched, and the caller is expected to fall back to
/// `realloc_array`. The handle's address never changes either way.
pub fn try_grow_inplace<T, A: RawAlloc>(a: &mut A, b: &mut RawArray<T>, len: usize) -> (ok: bool)
    requires
        old(b).wf(),
        len >= old(b)@.len(),
        size_of::<T>() != 0 ==> spec_request_size(size_of::<T>(), old(b)@.len()) <= old(a).outstanding(),
    ensures
        final(b).wf(),
        final(b).spec_addr() == old(b).spec_addr(),
        size_of::<T>() == 0 ==> ok && *final(a) == *old(a) && final(b)@ == spec_resized(
            old(b)@,
            len as nat,
        ),
        size_of::<T>() != 0 && ok ==> final(b)@ == spec_resized(old(b)@, len as nat) && final(a).outstanding() == old(a).outstanding() - spec_request_size(
            size_of::<T>(),
            old(b)@.len(),
        ) + spec_request_size(size_of::<T>(), len as nat),
        size_of::<T>() != 0 && !ok ==> *final(b) == *old(b) && final(a).outstanding() == old(a).outstanding(),
{
    layout_for_type_is_valid::<T>();
    let size = core::mem::size_of::<T>();
    if size == 0 {
        b.resize_slots(len);
        return true;
    }
    let align = core::mem::align_of::<T>();
    let old_len = b.len();
    let old_bytes = request_size(size, old_len);
    let desired = request_size(size, len);
    proof {
        assert((size as nat) * (old_len as nat) >= 1) by (nonlinear_arith)
            requires
                size >= 1,
                old_len >= 1,
        ;
        lemma_request_size_monotone(size as nat, old_len as nat, len as nat);
    }
    let result = a.reallocate_inplace(b.addr(), old_bytes, desired, align);
    proof {
        A::usable_at_least(desired as nat, align as nat);
    }
    if result >= desired {
        b.resize_slots(len);
        true
    } else {
        false
    }
}

/// Tries to shrink the allocation behind `b` in place to fit `len`
/// elements. Success demands that the block's resulting usable size exactly
/// equal the usable size of a fresh allocation at the smaller request, so a
/// block silently retained at its old size never counts as shrunk; on
/// failure the handle, its contents and the allocator total are untouched.
/// The handle's address never changes either way.
pub fn try_shrink_inplace<T, A: RawAlloc>(a: &mut A, b: &mut RawArray<T>, len: usize) -> (ok: bool)
    requires
        old(b).wf(),
        len > 0,
        len <= old(b)@.len(),
        size_of::<T>() != 0 ==> spec_request_size(size_of::<T>(), old(b)@.len()) <= old(a).outstanding(),
    ensures
        final(b).wf(),
        final(b).spec_addr() == old(b).spec_addr(),
        size_of::<T>() == 0 ==> ok && *final(a) == *old(a) && final(b)@ == spec_resized(
            old(b)@,
            len as nat,
        ),
        size_of::<T>() != 0 && ok ==> final(b)@ == spec_resized(old(b)@, len as nat) && final(a).outstanding() == old(a).outstanding() - spec_request_size(
            size_of::<T>(),
            old(b)@.len(),
        ) + spec_request_size(size_of::<T>(), len as nat),
        size_of::<T>() != 0 && !ok ==> *final(b) == *old(b) && final(a).outstanding() == old(a).outstanding(),
{
    layout_for_type_is_valid::<T>();
    let size = core::mem::size_of::<T>();
    if size == 0 {
        b.resize_slots(len);
        return true;
    }
    let align = core::mem::align_of::<T>();
    let old_len = b.len();
    let old_bytes = request_size(size, old_len);
    let desired = request_size(size, len);
    proof {
        assert((size as nat) * (len as nat) >= 1) by (nonlinear_arith)
            requires
                size >= 1,
                len >= 1,
        ;
        lemma_request_size_monotone(size as nat, len as nat, old_len as nat);
    }
    let result = a.reallocate_inplace(b.addr(), old_bytes, desired, align);
    let fresh = a.usable_size(desired, align);
    proof {
        A::usable_at_least(desired as nat, align as nat);
    }
    if result == fresh {
        b.resize_slots(len);
        true
    } else {
        false
    }
}

/// For every element type and every positive length, allocating an array
/// and immediately deallocating it with the same handle neither aborts nor
/// leaks: the allocator's outstanding total ends exactly where it started,
/// whether or not the allocation succeeded, and a zero-sized element type
/// leaves the allocator completely untouched.
pub fn alloc_dealloc_round_trip<T, A: RawAlloc>(a: &mut A, len: usize)
    requires
        len > 0,
    ensures
        final(a).outstanding() == old(a).outstanding(),
        size_of::<T>() == 0 ==> *final(a) == *old(a),
{
    match alloc_array::<T, A>(a, len) {
        Some(b) => dealloc_array(a, b),
        None => (),
    }
}

/// For a zero-sized element type and any positive lengths: allocating,
/// growing in place, shrinking in place, reallocating and deallocating all
/// succeed trivially, every handle along the way carries the one fixed
/// sentinel address, and the allocator is never asked for a byte: it ends
/// exactly as it started.
pub fn zero_sized_ops_are_trivial<T, A: RawAlloc>(a: &mut A, len1: usize, len2: usize)
    requires
        size_of::<T>() == 0,
        0 < len1 <= len2,
    ensures
        *final(a) == *old(a),
{
    let mut b = match alloc_array::<T, A>(a, len1) {
        Some(b) => b,
        None => unreached(),
    };
    assert(b.spec_addr() == EMPTY_ADDR);
    let grown = try_grow_inplace(a, &mut b, len2);
    assert(grown && b.spec_addr() == EMPTY_ADDR);
    let shrunk = try_shrink_inplace(a, &mut b, len1);
    assert(shrunk && b.spec_addr() == EMPTY_ADDR);
    let moved = realloc_array(a, &mut b, len2);
    assert(moved && b.spec_addr() == EMPTY_ADDR);
    dealloc_array(a, b);
}

/// Releases the storage behind a single-element handle. Zero-sized types
/// are a no-op: their sentinel was never backed by the allocator.
pub fn dealloc<T, A: RawAlloc>(a: &mut A, b: RawBox<T>)
    requires
        b.wf(),
        size_of::<T>() != 0 ==> size_of::<T>() <= old(a).outstanding(),
    ensures
        size_of::<T>() == 0 ==> *final(a) == *old(a),
        size_of::<T>() != 0 ==> final(a).outstanding() == old(a).outstanding() - size_of::<T>(),
{
    layout_for_type_is_valid::<T>();
    let size = core::mem::size_of::<T>();
    if size != 0 {
        let align = core::mem::align_of::<T>();
        a.deallocate(b.addr(), size, align);
    }
}

/// Releases the storage behind an array handle sized for `b.len()`
/// elements. Zero-sized types are a no-op: their sentinel was never backed
/// by the allocator.
pub fn dealloc_array<T, A: RawAlloc>(a: &mut A, b: RawArray<T>)
    requires
        b.wf(),
        size_of::<T>() != 0 ==> spec_request_size(size_of::<T>(), b@.len()) <= old(a).outstanding(),
    ensures
        size_of::<T>() == 0 ==> *final(a) == *old(a),
        size_of::<T>() != 0 ==> final(a).outstanding() == old(a).outstanding()
            - spec_request_size(size_of::<T>(), b@.len()),
{
    layout_for_type_is_valid::<T>();
    let size = core::mem::size_of::<T>();
    if size != 0 {
        let align = core::mem::align_of::<T>();
        let len = b.len();
        let bytes = request_size(size, len);
        proof {
            assert((size as nat) * (len as nat) >= 1) by (nonlinear_arith)
                requires
                    size >= 1,
                    len >= 1,
            ;
        }
        a.deallocate(b.addr(), bytes, align);
    }
}

} // verus!
