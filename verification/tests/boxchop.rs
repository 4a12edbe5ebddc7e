use std::cell::Cell;

use boxchop::assume_all_init;
use boxchop::assume_zeroed_init;
use boxchop::into_uninit;
use boxchop::new_clones;
use boxchop::new_copies;
use boxchop::new_defaults;
use boxchop::new_uninit;
use boxchop::new_with;
use boxchop::new_zeroed;
use boxchop::BoxedSlice;
use boxchop::Slot;
use boxchop::Zeroable;

#[derive(Clone, Eq, PartialEq, Debug)]
enum Bread {
    Wheat,
    White,
    Other,
}

#[derive(Default, Eq, PartialEq, Debug)]
struct Counter(usize);

#[derive(Clone, Copy, Default, Eq, PartialEq, Debug)]
struct Marker;

#[test]
fn uninit_has_requested_length() {
    let nothings = new_uninit::<usize>(3);
    assert_eq!(nothings.len(), 3);
    let empty = new_uninit::<String>(0);
    assert_eq!(empty.len(), 0);
    let many = new_uninit::<u8>(1000);
    assert_eq!(many.len(), 1000);
}

#[test]
fn uninit_slots_hold_no_value() {
    let nothings = new_uninit::<usize>(3);
    for i in 0..3 {
        assert!(matches!(nothings.get(i), Slot::Uninit));
    }
}

#[test]
fn zeroed_has_requested_length() {
    let xs = new_zeroed::<u64>(4);
    assert_eq!(xs.len(), 4);
    let empty = new_zeroed::<u64>(0);
    assert_eq!(empty.len(), 0);
}

#[test]
fn zeroed_slots_are_zeroed() {
    let xs = new_zeroed::<u64>(4);
    for i in 0..4 {
        assert!(matches!(xs.get(i), Slot::Zeroed));
    }
}

#[test]
fn zeroed_completes_to_zeros() {
    let xs = new_zeroed::<usize>(4);
    assert_eq!(xs.len(), 4);
    let zeroes = assume_zeroed_init(xs);
    assert_eq!(zeroes.into_vec(), vec![0, 0, 0, 0]);
}

#[test]
fn zeroed_completes_for_several_types() {
    assert_eq!(assume_zeroed_init(new_zeroed::<bool>(3)).into_vec(), vec![false, false, false]);
    assert_eq!(assume_zeroed_init(new_zeroed::<i32>(2)).into_vec(), vec![0, 0]);
    assert_eq!(assume_zeroed_init(new_zeroed::<u8>(1)).into_vec(), vec![0]);
}

#[test]
fn zeroable_values_are_zero() {
    assert_eq!(<u8 as Zeroable>::zeroed(), 0);
    assert_eq!(<u16 as Zeroable>::zeroed(), 0);
    assert_eq!(<u32 as Zeroable>::zeroed(), 0);
    assert_eq!(<u64 as Zeroable>::zeroed(), 0);
    assert_eq!(<usize as Zeroable>::zeroed(), 0);
    assert_eq!(<i8 as Zeroable>::zeroed(), 0);
    assert_eq!(<i16 as Zeroable>::zeroed(), 0);
    assert_eq!(<i32 as Zeroable>::zeroed(), 0);
    assert_eq!(<i64 as Zeroable>::zeroed(), 0);
    assert_eq!(<isize as Zeroable>::zeroed(), 0);
    assert!(!<bool as Zeroable>::zeroed());
}

#[test]
fn assume_all_init_returns_written_values() {
    let numbers = BoxedSlice::from_vec(vec![Slot::Init(0), Slot::Init(12), Slot::Init(42)]);
    let numbers = assume_all_init(numbers);
    assert_eq!(numbers.into_vec(), vec![0, 12, 42]);
}

#[test]
fn manual_write_then_complete() {
    let mut slots = new_uninit::<u32>(3);
    slots.set(0, Slot::Init(5));
    slots.set(1, Slot::Init(6));
    slots.set(2, Slot::Init(7));
    let done = assume_all_init(slots);
    assert_eq!(done.into_vec(), vec![5, 6, 7]);
}

#[test]
fn zeroed_completion_keeps_written_values() {
    let mut slots = new_zeroed::<u32>(3);
    slots.set(1, Slot::Init(7));
    let done = assume_zeroed_init(slots);
    assert_eq!(done.into_vec(), vec![0, 7, 0]);
}

#[test]
fn copies_repeat_the_value() {
    let twelves = new_copies(2, 12);
    assert_eq!(twelves.into_vec(), vec![12, 12]);
}

#[test]
fn clones_repeat_the_value() {
    let loaf = new_clones(18, Bread::Wheat);
    assert_eq!(loaf.len(), 18);
    let loaf = loaf.into_vec();
    for b in &loaf {
        assert_eq!(*b, Bread::Wheat);
    }
    assert_ne!(loaf[0], Bread::White);
    assert_ne!(loaf[0], Bread::Other);
}

#[test]
fn clones_match_copies_for_copyable_elements() {
    let cloned = new_clones(3, 7u32).into_vec();
    let copied = new_copies(3, 7u32).into_vec();
    assert_eq!(cloned, copied);
}

#[test]
fn defaults_repeat_the_default() {
    let counters = new_defaults::<Counter>(2);
    assert_eq!(counters.into_vec(), vec![Counter(0), Counter(0)]);
    let zeros = new_defaults::<usize>(4);
    assert_eq!(zeros.into_vec(), vec![0, 0, 0, 0]);
}

#[test]
fn generated_elements_follow_the_index() {
    let nums = new_with(5, |x| x + 1);
    assert_eq!(nums.into_vec(), vec![1, 2, 3, 4, 5]);
}

#[test]
fn generator_runs_once_per_index_in_order() {
    let seen: Cell<usize> = Cell::new(0);
    let order: std::cell::RefCell<Vec<usize>> = std::cell::RefCell::new(Vec::new());
    let nums = new_with(4, |i| {
        seen.set(seen.get() + 1);
        order.borrow_mut().push(i);
        i * 10
    });
    assert_eq!(nums.into_vec(), vec![0, 10, 20, 30]);
    assert_eq!(seen.get(), 4);
    assert_eq!(order.into_inner(), vec![0, 1, 2, 3]);
}

#[test]
fn round_trip_keeps_every_element() {
    let nums = new_with(4, |x| x * 2);
    let slots = into_uninit(nums);
    for i in 0..4 {
        assert!(matches!(slots.get(i), Slot::Init(_)));
    }
    let back = assume_all_init(slots);
    assert_eq!(back.into_vec(), vec![0, 2, 4, 6]);
}

#[test]
fn empty_length_is_valid_everywhere() {
    assert_eq!(new_uninit::<String>(0).len(), 0);
    assert_eq!(new_zeroed::<String>(0).len(), 0);
    assert_eq!(new_copies(0, 9u8).len(), 0);
    assert_eq!(new_clones(0, Bread::Other).len(), 0);
    assert_eq!(new_defaults::<Counter>(0).len(), 0);
    let calls: Cell<usize> = Cell::new(0);
    let none = new_with(0, |i| {
        calls.set(calls.get() + 1);
        i
    });
    assert_eq!(none.len(), 0);
    assert_eq!(calls.get(), 0);
}

#[test]
fn zero_sized_elements_report_requested_length() {
    assert_eq!(new_uninit::<Marker>(6).len(), 6);
    assert_eq!(new_zeroed::<Marker>(6).len(), 6);
    assert_eq!(new_copies(5, Marker).len(), 5);
    assert_eq!(new_clones(5, Marker).len(), 5);
    assert_eq!(new_defaults::<Marker>(5).len(), 5);
    assert_eq!(new_copies(5, Marker).into_vec(), vec![Marker; 5]);
}

#[test]
fn zero_sized_generator_still_runs_per_index() {
    let calls: Cell<usize> = Cell::new(0);
    let markers = new_with(4, |_i| {
        calls.set(calls.get() + 1);
        Marker
    });
    assert_eq!(markers.len(), 4);
    assert_eq!(calls.get(), 4);
}

#[test]
fn get_and_set_access_elements_in_place() {
    let mut s = new_copies(3, 1i64);
    assert_eq!(*s.get(0), 1);
    s.set(1, 8);
    assert_eq!(*s.get(0), 1);
    assert_eq!(*s.get(1), 8);
    assert_eq!(*s.get(2), 1);
    assert_eq!(s.len(), 3);
}
