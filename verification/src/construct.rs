use vstd::prelude::*;

use crate::boxed::BoxedSlice;
use crate::cell::as_init_slots;
use crate::cell::init_values;
use crate::cell::Slot;

verus! {

/// Creates a fixed-length run of `len` uninitialized slots.
///
/// No slot holds a value and no slot is zeroed; write each slot with
/// [`BoxedSlice::set`] and then complete the run with [`assume_all_init`].
pub fn new_uninit<T>(len: usize) -> (r: BoxedSlice<Slot<T>>)
    ensures
        r@.len() == len,
        forall|i: int| 0 <= i < len ==> r@[i] is Uninit,
{
    let mut cells: Vec<Slot<T>> = Vec::new();
    let mut n: usize = 0;
    while n < len
        invariant
            n <= len,
            cells@.len() == n,
            forall|i: int| 0 <= i < n ==> cells@[i] is Uninit,
        decreases len - n,
    {
        cells.push(Slot::Uninit);
        n = n + 1;
    }
    BoxedSlice::from_vec(cells)
}

/// Creates a fixed-length run of `len` zeroed slots.
///
/// Every byte of the storage is deterministically zero, but no slot holds a
/// value in the type sense: a caller must separately know that the all-zero
/// form is a valid element value before treating the slots as initialized.
/// For element types that state exactly that (see [`crate::Zeroable`]),
/// [`crate::assume_zeroed_init`] completes the run without any write.
pub fn new_zeroed<T>(len: usize) -> (r: BoxedSlice<Slot<T>>)
    ensures
        r@.len() == len,
        forall|i: int| 0 <= i < len ==> r@[i] is Zeroed,
{
    let mut cells: Vec<Slot<T>> = Vec::new();
    let mut n: usize = 0;
    while n < len
        invariant
            n <= len,
            cells@.len() == n,
            forall|i: int| 0 <= i < n ==> cells@[i] is Zeroed,
        decreases len - n,
    {
        cells.push(Slot::Zeroed);
        n = n + 1;
    }
    BoxedSlice::from_vec(cells)
}

/// Completes a run of slots into a run of plain values.
///
/// This is the single completion step of the whole pipeline: it demands a
/// proof that every slot holds a fully constructed value, consumes the slot
/// handle, and returns an owning handle of the same length whose element at
/// each index is the value the slot at that index held. No element is copied
/// or rebuilt beyond moving it out of its slot.
pub fn assume_all_init<T>(ts: BoxedSlice<Slot<T>>) -> (r: BoxedSlice<T>)
    requires
        forall|i: int| 0 <= i < ts@.len() ==> ts@[i] is Init,
    ensures
        r@ == init_values(ts@),
        r@.len() == ts@.len(),
        forall|i: int| 0 <= i < ts@.len() ==> r@[i] == ts@[i].value(),
{
    let ghost orig = ts@;
    let mut cells: Vec<Slot<T>> = ts.into_vec();
    let mut out: Vec<T> = Vec::new();
    while cells.len() > 0
        invariant
            out@.len() + cells@.len() == orig.len(),
            forall|i: int| 0 <= i < orig.len() ==> orig[i] is Init,
            forall|i: int| 0 <= i < cells@.len() ==> cells@[i] == orig[out@.len() + i],
            forall|i: int| 0 <= i < out@.len() ==> out@[i] == orig[i].value(),
        decreases cells@.len(),
    {
        let c = cells.remove(0);
        match c {
            Slot::Init(t) => out.push(t),
            Slot::Uninit => {
                proof {
                    assert(false);
                }
            },
            Slot::Zeroed => {
                proof {
                    assert(false);
                }
            },
        }
    }
    proof {
        assert(out@ =~= init_values(orig));
    }
    BoxedSlice::from_vec(out)
}

/// Forgets that a run of plain values is initialized, returning the same
/// elements as a run of initialized slots.
///
/// Completing the result with [`assume_all_init`] yields the original
/// elements again; see [`crate::lemma_uninit_round_trip`].
pub fn into_uninit<T>(ts: BoxedSlice<T>) -> (r: BoxedSlice<Slot<T>>)
    ensures
        r@ == as_init_slots(ts@),
        r@.len() == ts@.len(),
        forall|i: int| 0 <= i < ts@.len() ==> r@[i] == Slot::Init(ts@[i]),
{
    let ghost orig = ts@;
    let mut items: Vec<T> = ts.into_vec();
    let mut out: Vec<Slot<T>> = Vec::new();
    while items.len() > 0
        invariant
            out@.len() + items@.len() == orig.len(),
            forall|i: int| 0 <= i < items@.len() ==> items@[i] == orig[out@.len() + i],
            forall|i: int| 0 <= i < out@.len() ==> out@[i] == Slot::Init(orig[i]),
        decreases items@.len(),
    {
        let t = items.remove(0);
        out.push(Slot::Init(t));
    }
    proof {
        assert(out@ =~= as_init_slots(orig));
    }
    BoxedSlice::from_vec(out)
}

/// Creates a run of `len` elements, each a bit-copy of `val`.
pub fn new_copies<T: Copy>(len: usize, val: T) -> (r: BoxedSlice<T>)
    ensures
        r@.len() == len,
        forall|i: int| 0 <= i < len ==> r@[i] == val,
{
    let mut ts: BoxedSlice<Slot<T>> = new_uninit::<T>(len);
    let mut n: usize = 0;
    while n < len
        invariant
            n <= len,
            ts@.len() == len,
            forall|i: int| 0 <= i < n ==> ts@[i] == Slot::Init(val),
        decreases len - n,
    {
        ts.set(n, Slot::Init(val));
        n = n + 1;
    }
    assume_all_init(ts)
}

/// Creates a run of `len` elements, each an explicit clone of `val`.
///
/// Every element is a possible result of `val.clone()`; where the element
/// type's clone faithfully reproduces its argument, this is observably the
/// same as [`new_copies`] (see [`crate::lemma_clones_are_copies`]).
pub fn new_clones<T: Clone>(len: usize, val: T) -> (r: BoxedSlice<T>)
    ensures
        r@.len() == len,
        forall|i: int| 0 <= i < len ==> cloned(val, #[trigger] r@[i]),
{
    let mut ts: BoxedSlice<Slot<T>> = new_uninit::<T>(len);
    let mut n: usize = 0;
    while n < len
        invariant
            n <= len,
            ts@.len() == len,
            forall|i: int|
                0 <= i < n ==> #[trigger] ts@[i] is Init && cloned(val, ts@[i].value()),
        decreases len - n,
    {
        let c = val.clone();
        ts.set(n, Slot::Init(c));
        n = n + 1;
    }
    assume_all_init(ts)
}

/// Creates a run of `len` elements, each freshly default-constructed.
///
/// Every element is a possible result of `T::default()`.
pub fn new_defaults<T: Default>(len: usize) -> (r: BoxedSlice<T>)
    ensures
        r@.len() == len,
        forall|i: int| 0 <= i < len ==> call_ensures(T::default, (), #[trigger] r@[i]),
{
    let mut ts: BoxedSlice<Slot<T>> = new_uninit::<T>(len);
    let mut n: usize = 0;
    while n < len
        invariant
            n <= len,
            ts@.len() == len,
            forall|i: int|
                0 <= i < n ==> #[trigger] ts@[i] is Init && call_ensures(
                    T::default,
                    (),
                    ts@[i].value(),
                ),
        decreases len - n,
    {
        let d = T::default();
        ts.set(n, Slot::Init(d));
        n = n + 1;
    }
    assume_all_init(ts)
}

/// Creates a run of `len` elements where the element at index `i` is
/// `gen(i)`.
///
/// The generator is invoked exactly once per index, in ascending index
/// order, single-threaded, for every element type — including element types
/// that occupy no storage, whose generated values still count.
pub fn new_with<T, F: Fn(usize) -> T>(len: usize, gen: F) -> (r: BoxedSlice<T>)
    requires
        forall|i: usize| i < len ==> call_requires(gen, (i,)),
    ensures
        r@.len() == len,
        forall|i: int| 0 <= i < len ==> call_ensures(gen, (i as usize,), #[trigger] r@[i]),
{
    let mut ts: BoxedSlice<Slot<T>> = new_uninit::<T>(len);
    let mut n: usize = 0;
    while n < len
        invariant
            n <= len,
            ts@.len() == len,
            forall|i: usize| i < len ==> call_requires(gen, (i,)),
            forall|i: int|
                0 <= i < n ==> #[trigger] ts@[i] is Init && call_ensures(
                    gen,
                    (i as usize,),
                    ts@[i].value(),
                ),
        decreases len - n,
    {
        let t = gen(n);
        ts.set(n, Slot::Init(t));
        n = n + 1;
    }
    assume_all_init(ts)
}

} // verus!
