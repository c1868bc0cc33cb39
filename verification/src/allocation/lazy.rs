//! Lazy-mode facade: identical to [`plain`](crate::allocation::plain) except
//! that allocation and reallocation abort the whole process on failure,
//! saving callers the per-call check. The in-place resize probes are
//! unchanged: their failure is a normal "try a fallback" signal, never
//! fatal.

use vstd::layout::size_of;
use vstd::prelude::*;

use crate::allocation::handle::RawArray;
use crate::allocation::handle::RawBox;
use crate::allocation::handle::spec_resized;
use crate::allocation::handle::spec_uninit;
use crate::allocation::oom;
use crate::allocation::plain;
use crate::allocation::raw::RawAlloc;
use crate::allocation::spec_request_size;
use crate::allocation::EMPTY_ADDR;

verus! {

/// Allocates storage for a single element of type `T`, aborting the process
/// instead of returning on allocation failure.
///
/// On failure `oom` never returns control, so the returned handle always
/// comes from a successful allocation. The verifier has no notion of the
/// aborted path ending the process, so the allocator clause below also
/// admits the allocator left untouched, which is all that path leaves
/// behind.
pub fn alloc_one<T, A: RawAlloc>(a: &mut A) -> (r: RawBox<T>)
    ensures
        r.wf(),
        r@ is None,
        size_of::<T>() == 0 ==> r.spec_addr() == EMPTY_ADDR && *final(a) == *old(a),
        size_of::<T>() != 0 ==> final(a).outstanding() == old(a).outstanding() + size_of::<T>()
            || final(a).outstanding() == old(a).outstanding(),
{
    match plain::alloc_one::<T, A>(a) {
        Some(b) => b,
        None => {
            oom();
            RawBox::from_parts(EMPTY_ADDR)
        },
    }
}

/// Allocates storage for `len` elements of type `T`, aborting the process
/// instead of returning on allocation failure.
///
/// On failure `oom` never returns control, so the returned handle always
/// comes from a successful allocation. The verifier has no notion of the
/// aborted path ending the process, so the allocator clause below also
/// admits the allocator left untouched, which is all that path leaves
/// behind.
pub fn alloc_array<T, A: RawAlloc>(a: &mut A, len: usize) -> (r: RawArray<T>)
    requires
        len > 0,
    ensures
        r.wf(),
        r@ == spec_uninit::<T>(len as nat),
        size_of::<T>() == 0 ==> r.spec_addr() == EMPTY_ADDR && *final(a) == *old(a),
        size_of::<T>() != 0 ==> final(a).outstanding() == old(a).outstanding()
            + spec_request_size(size_of::<T>(), len as nat) || final(a).outstanding() == old(a).outstanding(),
{
    match plain::alloc_array::<T, A>(a, len) {
        Some(b) => b,
        None => {
            oom();
            RawArray::from_parts(EMPTY_ADDR, len)
        },
    }
}

/// Resizes the allocation behind `b` to fit `len` elements, aborting the
/// process instead of returning on allocation failure. The shared prefix of
/// the contents is preserved and any new slots are uninitialized.
///
/// On failure `oom` never returns control, so after a return the handle has
/// always really been resized. The verifier has no notion of the aborted
/// path ending the process, so the allocator clause below also admits the
/// allocator left untouched, which is all that path leaves behind.
pub fn realloc_array<T, A: RawAlloc>(a: &mut A, b: &mut RawArray<T>, len: usize)
    requires
        old(b).wf(),
        len > 0,
        size_of::<T>() != 0 ==> spec_request_size(size_of::<T>(), old(b)@.len()) <= old(a).outstanding(),
    ensures
        final(b).wf(),
        final(b)@ == spec_resized(old(b)@, len as nat),
        size_of::<T>() == 0 ==> *final(a) == *old(a) && final(b).spec_addr() == old(b).spec_addr(),
        size_of::<T>() != 0 ==> final(a).outstanding() == old(a).outstanding()
            - spec_request_size(size_of::<T>(), old(b)@.len()) + spec_request_size(
            size_of::<T>(),
            len as nat,
        ) || final(a).outstanding() == old(a).outstanding(),
{
    let ok = plain::realloc_array(a, b, len);
    if !ok {
        oom();
        b.resize_slots(len);
    }
}

/// Tries to grow the allocation behind `b` in place; failure is recoverable
/// and reported in the result, exactly as in plain mode.
pub fn try_grow_inplace<T, A: RawAlloc>(a: &mut A, b: &mut RawArray<T>, len: usize) -> (ok: bool)
    requires
        old(b).wf(),
        len >= old(b)@.len(),
        size_of::<T>() != 0 ==> spec_request_size(size_of::<T>(), old(b)@.len()) <= old(a).outstanding(),
    ensures
        final(b).wf(),
        final(b).spec_addr() == old(b).spec_addr(),
        size_of::<T>() == 0 ==> ok && *final(a) == *old(a) && final(b)@ == spec_resized(
            old(b)@,
            len as nat,
        ),
        size_of::<T>() != 0 && ok ==> final(b)@ == spec_resized(old(b)@, len as nat) && final(a).outstanding() == old(a).outstanding() - spec_request_size(
            size_of::<T>(),
            old(b)@.len(),
        ) + spec_request_size(size_of::<T>(), len as nat),
        size_of::<T>() != 0 && !ok ==> *final(b) == *old(b) && final(a).outstanding() == old(a).outstanding(),
{
    plain::try_grow_inplace(a, b, len)
}

/// Tries to shrink the allocation behind `b` in place; failure is
/// recoverable and reported in the result, exactly as in plain mode.
pub fn try_shrink_inplace<T, A: RawAlloc>(a: &mut A, b: &mut RawArray<T>, len: usize) -> (ok: bool)
    requires
        old(b).wf(),
        len > 0,
        len <= old(b)@.len(),
        size_of::<T>() != 0 ==> spec_request_size(size_of::<T>(), old(b)@.len()) <= old(a).outstanding(),
    ensures
        final(b).wf(),
        final(b).spec_addr() == old(b).spec_addr(),
        size_of::<T>() == 0 ==> ok && *final(a) == *old(a) && final(b)@ == spec_resized(
            old(b)@,
            len as nat,
        ),
        size_of::<T>() != 0 && ok ==> final(b)@ == spec_resized(old(b)@, len as nat) && final(a).outstanding() == old(a).outstanding() - spec_request_size(
            size_of::<T>(),
            old(b)@.len(),
        ) + spec_request_size(size_of::<T>(), len as nat),
        size_of::<T>() != 0 && !ok ==> *final(b) == *old(b) && final(a).outstanding() == old(a).outstanding(),
{
    plain::try_shrink_inplace(a, b, len)
}

/// Releases the storage behind a single-element handle; identical to plain
/// mode, since deallocation has no failure to abort on.
pub fn dealloc<T, A: RawAlloc>(a: &mut A, b: RawBox<T>)
    requires
        b.wf(),
        size_of::<T>() != 0 ==> size_of::<T>() <= old(a).outstanding(),
    ensures
        size_of::<T>() == 0 ==> *final(a) == *old(a),
        size_of::<T>() != 0 ==> final(a).outstanding() == old(a).outstanding() - size_of::<T>(),
{
    plain::dealloc(a, b);
}

/// Releases the storage behind an array handle; identical to plain mode,
/// since deallocation has no failure to abort on.
pub fn dealloc_array<T, A: RawAlloc>(a: &mut A, b: RawArray<T>)
    requires
        b.wf(),
        size_of::<T>() != 0 ==> spec_request_size(size_of::<T>(), b@.len()) <= old(a).outstanding(),
    ensures
        size_of::<T>() == 0 ==> *final(a) == *old(a),
        size_of::<T>() != 0 ==> final(a).outstanding() == old(a).outstanding()
            - spec_request_size(size_of::<T>(), b@.len()),
{
    plain::dealloc_array(a, b);
}

} // verus!
