use vstd::prelude::*;

verus! {

/// A heap-allocated, contiguous, fixed-length run of elements with a single
/// exclusive owner.
///
/// The length is fixed when the handle is created and never changes
/// afterwards: [`BoxedSlice::set`] replaces one element but keeps the length,
/// and no operation grows or shrinks the storage. The storage is released
/// exactly once, when the handle is dropped or consumed.
#[derive(Debug, PartialEq, Eq)]
pub struct BoxedSlice<T> {
    items: Vec<T>,
}

impl<T> View for BoxedSlice<T> {
    type V = Seq<T>;

    closed spec fn view(&self) -> Seq<T> {
        self.items@
    }
}

impl<T> BoxedSlice<T> {
    /// Takes ownership of `items` as a fixed-length run of elements.
    pub fn from_vec(items: Vec<T>) -> (r: BoxedSlice<T>)
        ensures
            r@ == items@,
    {
        BoxedSlice { items }
    }

    /// The number of elements this handle owns.
    pub fn len(&self) -> (n: usize)
        ensures
            n == self@.len(),
    {
        self.items.len()
    }

    /// Borrows the element at index `i`.
    pub fn get(&self, i: usize) -> (r: &T)
        requires
            i < self@.len(),
        ensures
            *r == self@[i as int],
    {
        &self.items[i]
    }

    /// Writes `v` into index `i`, dropping whatever the index held before.
    /// The length does not change.
    pub fn set(&mut self, i: usize, v: T)
        requires
            i < old(self)@.len(),
        ensures
            final(self)@ == old(self)@.update(i as int, v),
    {
        self.items.set(i, v);
    }

    /// Releases the fixed-length discipline and hands the elements back as a
    /// vector, in order.
    pub fn into_vec(self) -> (r: Vec<T>)
        ensures
            r@ == self@,
    {
        self.items
    }
}

} // verus!
