//! Allocation handles: an address paired with the element slots it backs.
//!
//! A handle is born from an allocate operation, may be resized repeatedly,
//! and ends when it is passed to the matching deallocate operation. Slots
//! start uninitialized (`None` in the view) and become initialized when
//! written, so reading ahead of a write is ruled out at verification time
//! instead of being undefined behavior.

use vstd::layout::size_of;
use vstd::pervasive::unreached;
use vstd::prelude::*;

use crate::allocation::EMPTY_ADDR;

verus! {

/// The slot sequence `s` resized to `len` slots: the shared prefix is kept
/// and any slots beyond the old length are uninitialized.
pub open spec fn spec_resized<T>(s: Seq<Option<T>>, len: nat) -> Seq<Option<T>> {
    Seq::new(len, |i: int| if 0 <= i < s.len() { s[i] } else { None })
}

/// `len` uninitialized slots.
pub open spec fn spec_uninit<T>(len: nat) -> Seq<Option<T>> {
    Seq::new(len, |i: int| None)
}

/// Resizing keeps every slot of the shared prefix unchanged.
pub proof fn lemma_resized_prefix<T>(s: Seq<Option<T>>, len: nat)
    ensures
        forall|i: int| 0 <= i < s.len() && i < len ==> spec_resized(s, len)[i] == s[i],
{
}

/// Writing a pattern, growing the block, and reading back the first
/// `s.len()` slots reproduces the pattern exactly.
pub proof fn lemma_grow_round_trip<T>(s: Seq<Option<T>>, len: nat)
    requires
        s.len() <= len,
    ensures
        spec_resized(s, len).subrange(0, s.len() as int) == s,
{
    assert(spec_resized(s, len).subrange(0, s.len() as int) =~= s);
}

/// A handle to storage for a single element of type `T`.
pub struct RawBox<T> {
    addr: usize,
    cell: Option<T>,
}

impl<T> View for RawBox<T> {
    type V = Option<T>;

    closed spec fn view(&self) -> Option<T> {
        self.cell
    }
}

impl<T> RawBox<T> {
    /// The handle's address.
    pub closed spec fn spec_addr(&self) -> usize {
        self.addr
    }

    /// A live handle: non-null, and the fixed sentinel exactly when `T` is
    /// zero-sized.
    pub open spec fn wf(&self) -> bool {
        &&& self.spec_addr() != 0
        &&& (size_of::<T>() == 0 ==> self.spec_addr() == EMPTY_ADDR)
    }

    pub(crate) fn from_parts(addr: usize) -> (r: Self)
        requires
            addr != 0,
            size_of::<T>() == 0 ==> addr == EMPTY_ADDR,
        ensures
            r.wf(),
            r@ is None,
            r.spec_addr() == addr,
    {
        RawBox { addr, cell: None }
    }

    /// The handle's address.
    pub fn addr(&self) -> (r: usize)
        ensures
            r == self.spec_addr(),
    {
        self.addr
    }

    /// Overwrites the slot without reading whatever it held before.
    pub fn write(&mut self, v: T)
        ensures
            final(self)@ == Some(v),
            final(self).spec_addr() == old(self).spec_addr(),
    {
        self.cell = Some(v);
    }

    /// Reads the initialized slot.
    pub fn read(&self) -> (r: &T)
        requires
            self@ is Some,
        ensures
            self@ == Some(*r),
    {
        match &self.cell {
            Some(v) => v,
            None => unreached(),
        }
    }
}

/// A handle to storage for an array of elements of type `T`, together with
/// the element count the block was last sized for.
pub struct RawArray<T> {
    addr: usize,
    cells: Vec<Option<T>>,
}

impl<T> View for RawArray<T> {
    type V = Seq<Option<T>>;

    closed spec fn view(&self) -> Seq<Option<T>> {
        self.cells@
    }
}

impl<T> RawArray<T> {
    /// The handle's address.
    pub closed spec fn spec_addr(&self) -> usize {
        self.addr
    }

    /// A live handle: non-null, sized for at least one element, and the
    /// fixed sentinel exactly when `T` is zero-sized.
    pub open spec fn wf(&self) -> bool {
        &&& self.spec_addr() != 0
        &&& self@.len() > 0
        &&& (size_of::<T>() == 0 ==> self.spec_addr() == EMPTY_ADDR)
    }

    pub(crate) fn from_parts(addr: usize, len: usize) -> (r: Self)
        requires
            addr != 0,
            len > 0,
            size_of::<T>() == 0 ==> addr == EMPTY_ADDR,
        ensures
            r.wf(),
            r@ == spec_uninit::<T>(len as nat),
            r.spec_addr() == addr,
    {
        let mut cells: Vec<Option<T>> = Vec::new();
        let mut i: usize = 0;
        while i < len
            invariant
                i <= len,
                cells@ =~= spec_uninit::<T>(i as nat),
            decreases len - i,
        {
            cells.push(None);
            i = i + 1;
        }
        RawArray { addr, cells }
    }

    pub(crate) fn set_addr(&mut self, addr: usize)
        requires
            addr != 0,
            size_of::<T>() == 0 ==> addr == EMPTY_ADDR,
        ensures
            final(self)@ == old(self)@,
            final(self).spec_addr() == addr,
    {
        self.addr = addr;
    }

    pub(crate) fn resize_slots(&mut self, len: usize)
        ensures
            final(self)@ == spec_resized(old(self)@, len as nat),
            final(self).spec_addr() == old(self).spec_addr(),
    {
        if len <= self.cells.len() {
            self.cells.truncate(len);
            proof {
                assert(self.cells@ =~= spec_resized(old(self)@, len as nat));
            }
        } else {
            let ghost orig: Seq<Option<T>> = self.cells@;
            while self.cells.len() < len
                invariant
                    self.addr == old(self).spec_addr(),
                    orig.len() <= self.cells@.len() <= len,
                    self.cells@.subrange(0, orig.len() as int) == orig,
                    forall|i: int| orig.len() <= i < self.cells@.len() ==> self.cells@[i] is None,
                decreases len - self.cells.len(),
            {
                let ghost before: Seq<Option<T>> = self.cells@;
                self.cells.push(None);
                proof {
                    assert(self.cells@.subrange(0, orig.len() as int) =~= before.subrange(
                        0,
                        orig.len() as int,
                    ));
                }
            }
            proof {
                assert(self.cells@ =~= spec_resized(orig, len as nat));
            }
        }
    }

    /// The element count the handle is currently sized for.
    pub fn len(&self) -> (r: usize)
        ensures
            r == self@.len(),
    {
        self.cells.len()
    }

    /// The handle's address.
    pub fn addr(&self) -> (r: usize)
        ensures
            r == self.spec_addr(),
    {
        self.addr
    }

    /// Whether the slot at `index` has been written.
    pub fn is_init(&self, index: usize) -> (r: bool)
        requires
            index < self@.len(),
        ensures
            r == (self@[index as int] is Some),
    {
        self.cells[index].is_some()
    }

    /// Overwrites the slot at `index` without reading whatever it held
    /// before.
    pub fn write(&mut self, index: usize, v: T)
        requires
            index < old(self)@.len(),
        ensures
            final(self)@ == old(self)@.update(index as int, Some(v)),
            final(self).spec_addr() == old(self).spec_addr(),
    {
        self.cells[index] = Some(v);
    }

    /// Reads the initialized slot at `index`.
    pub fn read(&self, index: usize) -> (r: &T)
        requires
            index < self@.len(),
            self@[index as int] is Some,
        ensures
            self@[index as int] == Some(*r),
    {
        match &self.cells[index] {
            Some(v) => v,
            None => unreached(),
        }
    }
}

} // verus!
