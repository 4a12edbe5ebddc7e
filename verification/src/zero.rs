use vstd::prelude::*;

use crate::boxed::BoxedSlice;
use crate::cell::Slot;

verus! {

/// An element type whose all-zero byte form is a valid value.
///
/// This is the caller-side knowledge that lets a zeroed slot (see
/// [`crate::new_zeroed`]) be treated as initialized: `zero_spec` names the
/// value that all-zero bytes denote, and `zeroed` constructs exactly that
/// value.
pub trait Zeroable: Sized {
    /// The value denoted by the all-zero byte form.
    spec fn zero_spec() -> Self;

    /// Constructs the value denoted by the all-zero byte form.
    fn zeroed() -> (r: Self)
        ensures
            r == Self::zero_spec(),
    ;
}

impl Zeroable for u8 {
    open spec fn zero_spec() -> u8 {
        0u8
    }

    fn zeroed() -> u8 {
        0u8
    }
}

impl Zeroable for u16 {
    open spec fn zero_spec() -> u16 {
        0u16
    }

    fn zeroed() -> u16 {
        0u16
    }
}

impl Zeroable for u32 {
    open spec fn zero_spec() -> u32 {
        0u32
    }

    fn zeroed() -> u32 {
        0u32
    }
}

impl Zeroable for u64 {
    open spec fn zero_spec() -> u64 {
        0u64
    }

    fn zeroed() -> u64 {
        0u64
    }
}

impl Zeroable for usize {
    open spec fn zero_spec() -> usize {
        0usize
    }

    fn zeroed() -> usize {
        0usize
    }
}

impl Zeroable for i8 {
    open spec fn zero_spec() -> i8 {
        0i8
    }

    fn zeroed() -> i8 {
        0i8
    }
}

impl Zeroable for i16 {
    open spec fn zero_spec() -> i16 {
        0i16
    }

    fn zeroed() -> i16 {
        0i16
    }
}

impl Zeroable for i32 {
    open spec fn zero_spec() -> i32 {
        0i32
    }

    fn zeroed() -> i32 {
        0i32
    }
}

impl Zeroable for i64 {
    open spec fn zero_spec() -> i64 {
        0i64
    }

    fn zeroed() -> i64 {
        0i64
    }
}

impl Zeroable for isize {
    open spec fn zero_spec() -> isize {
        0isize
    }

    fn zeroed() -> isize {
        0isize
    }
}

impl Zeroable for bool {
    open spec fn zero_spec() -> bool {
        false
    }

    fn zeroed() -> bool {
        false
    }
}

/// The values a run of slots completes to when zeroed slots count as the
/// all-zero value; meaningful only where no slot is indeterminate.
pub open spec fn completed_values<T: Zeroable>(s: Seq<Slot<T>>) -> Seq<T> {
    s.map_values(
        |c: Slot<T>|
            if c is Zeroed {
                T::zero_spec()
            } else {
                c.value()
            },
    )
}

/// Completes a run of slots into a run of plain values, reading each zeroed
/// slot as the element type's all-zero value.
///
/// Like [`crate::assume_all_init`], this demands a proof that no slot is
/// indeterminate; unlike it, a zeroed slot is acceptable and completes to
/// [`Zeroable::zero_spec`] without ever having been written.
pub fn assume_zeroed_init<T: Zeroable>(ts: BoxedSlice<Slot<T>>) -> (r: BoxedSlice<T>)
    requires
        forall|i: int| 0 <= i < ts@.len() ==> !(#[trigger] ts@[i] is Uninit),
    ensures
        r@ == completed_values(ts@),
        r@.len() == ts@.len(),
        forall|i: int|
            0 <= i < ts@.len() && ts@[i] is Init ==> r@[i] == ts@[i].value(),
        forall|i: int|
            0 <= i < ts@.len() && ts@[i] is Zeroed ==> r@[i] == T::zero_spec(),
{
    let ghost orig = ts@;
    let mut cells: Vec<Slot<T>> = ts.into_vec();
    let mut out: Vec<T> = Vec::new();
    while cells.len() > 0
        invariant
            out@.len() + cells@.len() == orig.len(),
            forall|i: int| 0 <= i < orig.len() ==> !(#[trigger] orig[i] is Uninit),
            forall|i: int| 0 <= i < cells@.len() ==> cells@[i] == orig[out@.len() + i],
            forall|i: int| 0 <= i < out@.len() ==> out@[i] == completed_values(orig)[i],
        decreases cells@.len(),
    {
        let c = cells.remove(0);
        match c {
            Slot::Init(t) => out.push(t),
            Slot::Zeroed => out.push(T::zeroed()),
            Slot::Uninit => {
                proof {
                    assert(false);
                }
            },
        }
    }
    proof {
        assert(out@ =~= completed_values(orig));
    }
    BoxedSlice::from_vec(out)
}

} // verus!
