use vstd::prelude::*;

verus! {

/// A storage slot the shape of one element: it may or may not currently hold
/// a value of `T`, and an indeterminate slot can never be read as a `T`.
///
/// A freshly allocated slot is [`Slot::Uninit`]. A slot whose bytes were
/// deterministically zero-filled at allocation time is [`Slot::Zeroed`]; it
/// still holds no value in the type sense, but for element types whose
/// all-zero form is a valid value (see [`crate::Zeroable`]) it can be
/// completed without a write. Only [`Slot::Init`] holds a fully constructed
/// value.
#[derive(Debug, PartialEq, Eq)]
pub enum Slot<T> {
    /// Holds no value; the slot's contents are indeterminate.
    Uninit,
    /// Holds no value, but every byte of the slot is zero.
    Zeroed,
    /// Holds a fully constructed value.
    Init(T),
}

impl<T> Slot<T> {
    /// The value this slot holds; meaningful only for an initialized slot.
    pub open spec fn value(self) -> T
        recommends
            self is Init,
    {
        match self {
            Slot::Init(t) => t,
            Slot::Uninit => arbitrary(),
            Slot::Zeroed => arbitrary(),
        }
    }
}

/// Each element of `s`, wrapped in an initialized slot.
pub open spec fn as_init_slots<T>(s: Seq<T>) -> Seq<Slot<T>> {
    s.map_values(|t: T| Slot::Init(t))
}

/// The values held by a run of slots; meaningful only where every slot is
/// initialized.
pub open spec fn init_values<T>(s: Seq<Slot<T>>) -> Seq<T> {
    s.map_values(|c: Slot<T>| c.value())
}

} // verus!
