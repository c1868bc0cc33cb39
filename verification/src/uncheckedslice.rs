//! Slice wrappers whose operations are unchecked at runtime: every bound is
//! a precondition discharged by the verifier, so no call ever pays for or
//! relies on a runtime bounds check.

use vstd::prelude::*;
use vstd::slice::slice_index_get;
use vstd::slice::slice_subrange;

verus! {

/// A wrapper for a sequence of elements that provides unchecked versions of
/// the standard read-only slice operations.
pub struct UncheckedSlice<T> {
    data: Vec<T>,
}

impl<T> View for UncheckedSlice<T> {
    type V = Seq<T>;

    closed spec fn view(&self) -> Seq<T> {
        self.data@
    }
}

impl<T> UncheckedSlice<T> {
    /// Wraps the given elements.
    pub fn new(data: Vec<T>) -> (r: UncheckedSlice<T>)
        ensures
            r@ == data@,
    {
        UncheckedSlice { data }
    }

    /// The number of elements.
    pub fn len(&self) -> (r: usize)
        ensures
            r == self@.len(),
    {
        self.data.len()
    }

    /// A checked view of the elements.
    pub fn as_slice(&self) -> (r: &[T])
        ensures
            r@ == self@,
    {
        self.data.as_slice()
    }

    /// The elements from `from` (inclusive) to `to` (exclusive), without a
    /// runtime bounds check.
    pub fn slice(&self, from: usize, to: usize) -> (r: &[T])
        requires
            from <= to <= self@.len(),
        ensures
            r@ == self@.subrange(from as int, to as int),
    {
        slice_subrange(self.data.as_slice(), from, to)
    }

    /// The elements from `from` to the end, without a runtime bounds check.
    pub fn slice_from(&self, from: usize) -> (r: &[T])
        requires
            from <= self@.len(),
        ensures
            r@ == self@.subrange(from as int, self@.len() as int),
    {
        slice_subrange(self.data.as_slice(), from, self.data.len())
    }

    /// The elements from the start up to `to` (exclusive), without a
    /// runtime bounds check.
    pub fn slice_to(&self, to: usize) -> (r: &[T])
        requires
            to <= self@.len(),
        ensures
            r@ == self@.subrange(0, to as int),
    {
        slice_subrange(self.data.as_slice(), 0, to)
    }

    /// The two disjoint halves split at `at`, without a runtime bounds
    /// check.
    pub fn split_at(&self, at: usize) -> (r: (&[T], &[T]))
        requires
            at <= self@.len(),
        ensures
            r.0@ == self@.subrange(0, at as int),
            r.1@ == self@.subrange(at as int, self@.len() as int),
    {
        (self.slice_to(at), self.slice_from(at))
    }

    /// The element at `index`, without a runtime bounds check.
    pub fn get(&self, index: usize) -> (r: &T)
        requires
            index < self@.len(),
        ensures
            *r == self@[index as int],
    {
        slice_index_get(self.data.as_slice(), index)
    }
}

/// A wrapper for a sequence of elements that provides unchecked versions of
/// the standard slice operations, mutation included.
pub struct UncheckedMutSlice<T> {
    data: Vec<T>,
}

impl<T> View for UncheckedMutSlice<T> {
    type V = Seq<T>;

    closed spec fn view(&self) -> Seq<T> {
        self.data@
    }
}

impl<T> UncheckedMutSlice<T> {
    /// Wraps the given elements.
    pub fn new(data: Vec<T>) -> (r: UncheckedMutSlice<T>)
        ensures
            r@ == data@,
    {
        UncheckedMutSlice { data }
    }

    /// The number of elements.
    pub fn len(&self) -> (r: usize)
        ensures
            r == self@.len(),
    {
        self.data.len()
    }

    /// A checked read-only view of the elements.
    pub fn as_slice(&self) -> (r: &[T])
        ensures
            r@ == self@,
    {
        self.data.as_slice()
    }

    /// Gives the elements back as a checked, mutable container.
    pub fn as_mut_slice(self) -> (r: Vec<T>)
        ensures
            r@ == self@,
    {
        self.data
    }

    /// The elements from `from` (inclusive) to `to` (exclusive), without a
    /// runtime bounds check.
    pub fn slice(&self, from: usize, to: usize) -> (r: &[T])
        requires
            from <= to <= self@.len(),
        ensures
            r@ == self@.subrange(from as int, to as int),
    {
        slice_subrange(self.data.as_slice(), from, to)
    }

    /// The elements from `from` to the end, without a runtime bounds check.
    pub fn slice_from(&self, from: usize) -> (r: &[T])
        requires
            from <= self@.len(),
        ensures
            r@ == self@.subrange(from as int, self@.len() as int),
    {
        slice_subrange(self.data.as_slice(), from, self.data.len())
    }

    /// The elements from the start up to `to` (exclusive), without a
    /// runtime bounds check.
    pub fn slice_to(&self, to: usize) -> (r: &[T])
        requires
            to <= self@.len(),
        ensures
            r@ == self@.subrange(0, to as int),
    {
        slice_subrange(self.data.as_slice(), 0, to)
    }

    /// The two disjoint halves split at `at`, without a runtime bounds
    /// check.
    pub fn split_at(&self, at: usize) -> (r: (&[T], &[T]))
        requires
            at <= self@.len(),
        ensures
            r.0@ == self@.subrange(0, at as int),
            r.1@ == self@.subrange(at as int, self@.len() as int),
    {
        (self.slice_to(at), self.slice_from(at))
    }

    /// The element at `index`, without a runtime bounds check.
    pub fn get(&self, index: usize) -> (r: &T)
        requires
            index < self@.len(),
        ensures
            *r == self@[index as int],
    {
        slice_index_get(self.data.as_slice(), index)
    }

    /// Overwrites the element at `index`, without a runtime bounds check.
    pub fn set(&mut self, index: usize, v: T)
        requires
            index < old(self)@.len(),
        ensures
            final(self)@ == old(self)@.update(index as int, v),
    {
        self.data[index] = v;
    }
}

/// Conversion of an ordinary container of elements into the unchecked
/// wrappers.
pub trait SliceUncheckedExt<T>: Sized {
    /// The wrapped elements.
    spec fn items(&self) -> Seq<T>;

    /// Wraps the elements in a read-only unchecked slice.
    fn as_unchecked(self) -> (r: UncheckedSlice<T>)
        ensures
            r@ == self.items(),
    ;

    /// Wraps the elements in a mutable unchecked slice.
    fn as_unchecked_mut(self) -> (r: UncheckedMutSlice<T>)
        ensures
            r@ == self.items(),
    ;
}

impl<T> SliceUncheckedExt<T> for Vec<T> {
    open spec fn items(&self) -> Seq<T> {
        self@
    }

    fn as_unchecked(self) -> (r: UncheckedSlice<T>) {
        UncheckedSlice::new(self)
    }

    fn as_unchecked_mut(self) -> (r: UncheckedMutSlice<T>) {
        UncheckedMutSlice::new(self)
    }
}

} // verus!
