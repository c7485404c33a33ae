use std::cell::Cell;
use std::rc::Rc;

use wooting_sdk::callback::CallbackSlot;

#[test]
fn a_fresh_slot_holds_no_callback() {
    let slot: CallbackSlot<u64> = CallbackSlot::new();
    assert_eq!(slot.current(), None);
}

#[test]
fn registering_replaces_rather_than_appends() {
    let mut slot: CallbackSlot<u64> = CallbackSlot::new();
    assert_eq!(slot.replace(1), None);
    assert_eq!(slot.replace(2), Some(1));
    assert_eq!(slot.current(), Some(&2));
}

#[test]
fn only_the_latest_callback_fires_and_only_once() {
    let first_count = Rc::new(Cell::new(0u32));
    let second_count = Rc::new(Cell::new(0u32));

    let mut slot: CallbackSlot<Box<dyn Fn()>> = CallbackSlot::new();
    let first = Rc::clone(&first_count);
    slot.replace(Box::new(move || first.set(first.get() + 1)));
    let second = Rc::clone(&second_count);
    slot.replace(Box::new(move || second.set(second.get() + 1)));

    if let Some(callback) = slot.current() {
        callback();
    }

    assert_eq!(first_count.get(), 0);
    assert_eq!(second_count.get(), 1);
}
