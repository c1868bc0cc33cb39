//! Allocation operations with correct handling of zero-sized element types
//! and of integer overflow in request sizes.
//!
//! [`plain`] surfaces allocation failure in the return value, while [`lazy`]
//! aborts the process on failure; otherwise the two facades are identical.
//! Both are generic over a [`raw::RawAlloc`] capability and operate on the
//! handles of [`handle`]. [`model`] supplies simulated allocators.

use vstd::prelude::*;

pub mod handle;
pub mod lazy;
pub mod model;
pub mod plain;
pub mod raw;

verus! {

/// The fixed non-null address that stands in for every zero-sized
/// allocation. Handles carrying it are pure sentinels: they are never backed
/// by real memory, never handed to the raw allocator, and never freed.
pub const EMPTY_ADDR: usize = 1;

/// The byte count requested for `len` elements of `size` bytes each,
/// saturated to `usize::MAX` when the product overflows.
pub open spec fn spec_request_size(size: nat, len: nat) -> nat {
    if size * len > usize::MAX as nat {
        usize::MAX as nat
    } else {
        size * len
    }
}

/// Translates a logical request for `len` elements of `size` bytes each into
/// a physical byte count. On multiplication overflow the result saturates to
/// `usize::MAX` instead of wrapping, deliberately turning the overflow into a
/// request that is guaranteed to fail cleanly, never one that silently
/// under-allocates.
pub fn request_size(size: usize, len: usize) -> (r: usize)
    ensures
        r as nat == spec_request_size(size as nat, len as nat),
{
    size.checked_mul(len).unwrap_or(usize::MAX)
}

/// A larger element count never asks for fewer bytes.
pub proof fn lemma_request_size_monotone(size: nat, len1: nat, len2: nat)
    requires
        len1 <= len2,
    ensures
        spec_request_size(size, len1) <= spec_request_size(size, len2),
{
    assert(size * len1 <= size * len2) by (nonlinear_arith)
        requires
            len1 <= len2,
    ;
}

/// Aborts the process; the out-of-memory exit used by the `lazy` facade.
/// Relies on `std::alloc::handle_alloc_error`, which diverts to the global
/// allocation-error handler and never returns control (its
/// `std::alloc::Layout` argument only shapes the diagnostic).
#[verifier::external_body]
pub fn oom() {
    std::alloc::handle_alloc_error(std::alloc::Layout::new::<u8>())
}

} // verus!
