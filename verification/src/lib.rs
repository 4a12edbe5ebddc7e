//! Fixed-length, heap-owned, contiguous element sequences whose storage
//! starts out as possibly uninitialized slots and is completed by explicit
//! per-slot writes followed by a single completion step.
//!
//! The pipeline is: [`new_uninit`] (or [`new_zeroed`]) obtains a run of
//! [`Slot`]s, callers write each slot in ascending index order, and
//! [`assume_all_init`] turns the run of slots into a run of plain values.
//! The completion step demands a proof that every slot holds a value, so no
//! indeterminate slot can ever be read. The strategy constructors
//! [`new_copies`], [`new_clones`], [`new_defaults`] and [`new_with`] package
//! this pipeline for the common filling strategies.

mod boxed;
mod cell;
mod construct;
mod laws;
mod zero;

pub use boxed::BoxedSlice;
pub use cell::as_init_slots;
pub use cell::init_values;
pub use cell::Slot;
pub use construct::assume_all_init;
pub use construct::into_uninit;
pub use construct::new_clones;
pub use construct::new_copies;
pub use construct::new_defaults;
pub use construct::new_uninit;
pub use construct::new_with;
pub use construct::new_zeroed;
pub use laws::lemma_clones_are_copies;
pub use laws::lemma_uninit_round_trip;
pub use laws::lemma_zeroed_completes_to_zeros;
pub use zero::assume_zeroed_init;
pub use zero::completed_values;
pub use zero::Zeroable;
