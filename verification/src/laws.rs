use vstd::prelude::*;

use crate::cell::as_init_slots;
use crate::cell::init_values;
use crate::cell::Slot;
use crate::zero::completed_values;
use crate::zero::Zeroable;

verus! {

/// Round trip: forgetting that a sequence of elements is initialized (see
/// [`crate::into_uninit`]) and completing it again (see
/// [`crate::assume_all_init`]) yields the same sequence, element for
/// element, without touching any element.
pub proof fn lemma_uninit_round_trip<T>(s: Seq<T>)
    ensures
        init_values(as_init_slots(s)) == s,
{
    assert(init_values(as_init_slots(s)) =~= s);
}

/// For an element type whose clone faithfully reproduces its argument — as a
/// copyable type's derived clone does — a sequence of clones of a seed value
/// (as [`crate::new_clones`] produces) holds exactly copies of the seed (as
/// [`crate::new_copies`] produces).
pub proof fn lemma_clones_are_copies<T: Clone>(val: T, s: Seq<T>)
    requires
        forall|x: &T, y: T| #[trigger] call_ensures(T::clone, (x,), y) ==> y == *x,
        forall|i: int| 0 <= i < s.len() ==> cloned(val, #[trigger] s[i]),
    ensures
        forall|i: int| 0 <= i < s.len() ==> #[trigger] s[i] == val,
{
    assert forall|i: int| 0 <= i < s.len() implies #[trigger] s[i] == val by {
        assert(cloned(val, s[i]));
    }
}

/// A run of zeroed slots (as [`crate::new_zeroed`] produces), completed by
/// [`crate::assume_zeroed_init`], yields the all-zero value at every index.
pub proof fn lemma_zeroed_completes_to_zeros<T: Zeroable>(cells: Seq<Slot<T>>)
    requires
        forall|i: int| 0 <= i < cells.len() ==> #[trigger] cells[i] is Zeroed,
    ensures
        completed_values(cells).len() == cells.len(),
        forall|i: int|
            0 <= i < cells.len() ==> #[trigger] completed_values(cells)[i] == T::zero_spec(),
{
}

} // verus!
