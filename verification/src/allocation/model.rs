//! Simulated allocators for driving the facades: one that satisfies every
//! request while tracking the outstanding byte total, one that refuses all
//! allocation, and one that refuses all in-place resizing.

use vstd::prelude::*;

use crate::allocation::raw::RawAlloc;

verus! {

/// A simulated allocator. It backs no real memory: it tracks the
/// outstanding byte total, hands out nominal addresses, and reports every
/// request's usable size as exactly the requested size. Its two switches
/// turn it into an allocator that always fails allocation, or one that
/// never resizes a block in place, so that every failure path of the
/// facades can be exercised.
pub struct ModelAlloc {
    total: u128,
    next: usize,
    refuse_alloc: bool,
    refuse_inplace: bool,
}

impl ModelAlloc {
    /// An empty allocator that satisfies every request.
    pub fn new() -> (r: ModelAlloc)
        ensures
            r.outstanding() == 0,
    {
        ModelAlloc { total: 0, next: 16, refuse_alloc: false, refuse_inplace: false }
    }

    /// An empty allocator that refuses every allocation and reallocation,
    /// simulating memory exhaustion.
    pub fn refusing_allocation() -> (r: ModelAlloc)
        ensures
            r.outstanding() == 0,
    {
        ModelAlloc { total: 0, next: 16, refuse_alloc: true, refuse_inplace: true }
    }

    /// An empty allocator that allocates freely but never grows or shrinks
    /// a block in place.
    pub fn refusing_inplace() -> (r: ModelAlloc)
        ensures
            r.outstanding() == 0,
    {
        ModelAlloc { total: 0, next: 16, refuse_alloc: false, refuse_inplace: true }
    }

    /// The outstanding byte total, for leak checks.
    pub fn outstanding_bytes(&self) -> (r: u128)
        ensures
            r as nat == self.outstanding(),
    {
        self.total
    }
}

impl RawAlloc for ModelAlloc {
    closed spec fn outstanding(&self) -> nat {
        self.total as nat
    }

    /// The model has no size classes: a block occupies exactly what was
    /// asked for.
    open spec fn usable_spec(size: nat, align: nat) -> nat {
        size
    }

    proof fn usable_at_least(size: nat, align: nat) {
    }

    fn allocate(&mut self, size: usize, align: usize) -> (addr: usize) {
        if self.refuse_alloc {
            return 0;
        }
        if self.total > u128::MAX - size as u128 {
            return 0;
        }
        let addr = if self.next == 0 {
            16
        } else {
            self.next
        };
        self.next = addr.checked_add(size).unwrap_or(0);
        self.total = self.total + size as u128;
        addr
    }

    fn reallocate(&mut self, addr: usize, old_size: usize, new_size: usize, align: usize) -> (r:
        usize) {
        if self.refuse_alloc {
            return 0;
        }
        if self.total - old_size as u128 > u128::MAX - new_size as u128 {
            return 0;
        }
        let fresh = if self.next == 0 {
            16
        } else {
            self.next
        };
        self.next = fresh.checked_add(new_size).unwrap_or(0);
        self.total = self.total - old_size as u128 + new_size as u128;
        fresh
    }

    fn reallocate_inplace(
        &mut self,
        addr: usize,
        old_size: usize,
        new_size: usize,
        align: usize,
    ) -> (r: usize) {
        if new_size == old_size {
            return new_size;
        }
        if new_size < old_size {
            if self.refuse_inplace {
                return old_size;
            }
            self.total = self.total - old_size as u128 + new_size as u128;
            return new_size;
        }
        if self.refuse_inplace {
            return old_size;
        }
        if self.total - old_size as u128 > u128::MAX - new_size as u128 {
            return old_size;
        }
        self.total = self.total - old_size as u128 + new_size as u128;
        new_size
    }

    fn deallocate(&mut self, addr: usize, size: usize, align: usize) {
        self.total = self.total - size as u128;
    }

    fn usable_size(&self, size: usize, align: usize) -> (r: usize) {
        size
    }
}

} // verus!
