//! The raw allocator capability that the facades consume.

use vstd::prelude::*;

verus! {

/// One externally supplied raw allocator: allocate, reallocate (moving or in
/// place) and deallocate byte ranges by size and alignment.
///
/// The model is a running total of the bytes the allocator currently holds
/// on behalf of its callers, `outstanding`, together with a size-class
/// function `usable_spec`: the usable size a fresh allocation of a given
/// request would actually occupy. A null (zero) address signals allocation
/// failure, and a failed operation leaves the allocator unchanged, so leaks
/// are observable in `outstanding` alone.
pub trait RawAlloc: Sized {
    /// Bytes currently allocated and not yet returned, as requested sizes.
    spec fn outstanding(&self) -> nat;

    /// The usable size that a fresh allocation of `size` bytes at alignment
    /// `align` would occupy.
    spec fn usable_spec(size: nat, align: nat) -> nat;

    /// A block is never smaller than what was asked for.
    proof fn usable_at_least(size: nat, align: nat)
        ensures
            Self::usable_spec(size, align) >= size,
    ;

    /// Allocates `size` bytes at alignment `align`. Returns the block's
    /// address, or zero on failure.
    fn allocate(&mut self, size: usize, align: usize) -> (addr: usize)
        requires
            size > 0,
            align > 0,
        ensures
            addr != 0 ==> final(self).outstanding() == old(self).outstanding() + size,
            addr == 0 ==> final(self).outstanding() == old(self).outstanding(),
    ;

    /// Resizes the block at `addr` from `old_size` to `new_size` bytes,
    /// possibly moving it. Returns the new address, or zero on failure, in
    /// which case the original block is untouched.
    fn reallocate(&mut self, addr: usize, old_size: usize, new_size: usize, align: usize) -> (r:
        usize)
        requires
            addr != 0,
            old_size > 0,
            new_size > 0,
            align > 0,
            old_size <= old(self).outstanding(),
        ensures
            r != 0 ==> final(self).outstanding() == old(self).outstanding() - old_size
                + new_size,
            r == 0 ==> final(self).outstanding() == old(self).outstanding(),
    ;

    /// Asks the allocator to resize the block at `addr` from `old_size` to
    /// `new_size` bytes without moving it, and returns the block's resulting
    /// usable size. Either the block was resized, and the result is the
    /// usable size of a fresh `new_size` allocation; or the block is
    /// untouched and the result is its current usable size, which is then
    /// reported only when it falls short of the request or, on a shrink,
    /// when it sits in a different size class than the target.
    fn reallocate_inplace(
        &mut self,
        addr: usize,
        old_size: usize,
        new_size: usize,
        align: usize,
    ) -> (r: usize)
        requires
            addr != 0,
            old_size > 0,
            new_size > 0,
            align > 0,
            old_size <= old(self).outstanding(),
        ensures
            (r as nat == Self::usable_spec(new_size as nat, align as nat) && final(self).outstanding() == old(self).outstanding() - old_size + new_size) || (r as nat
                == Self::usable_spec(old_size as nat, align as nat) && r < new_size && final(self).outstanding() == old(self).outstanding()) || (new_size < old_size && r as nat
                == Self::usable_spec(old_size as nat, align as nat) && Self::usable_spec(
                old_size as nat,
                align as nat,
            ) != Self::usable_spec(new_size as nat, align as nat) && final(self).outstanding()
                == old(self).outstanding()),
    ;

    /// Releases the `size`-byte block at `addr`.
    fn deallocate(&mut self, addr: usize, size: usize, align: usize)
        requires
            addr != 0,
            size > 0,
            align > 0,
            size <= old(self).outstanding(),
        ensures
            final(self).outstanding() == old(self).outstanding() - size,
    ;

    /// Reports the usable size of a fresh allocation of `size` bytes at
    /// alignment `align`, without allocating.
    fn usable_size(&self, size: usize, align: usize) -> (r: usize)
        ensures
            r as nat == Self::usable_spec(size as nat, align as nat),
    ;
}

} // verus!
