use learn_async::executor::FutureSlot;

#[test]
fn pending_future_goes_back_into_its_slot() {
    let mut slot = FutureSlot::new(5u8);
    let f = slot.take_for_poll();
    assert_eq!(f, Some(5));
    assert_eq!(slot.take_for_poll(), None);
    slot.settle(5, true);
    assert_eq!(slot.take_for_poll(), Some(5));
}

#[test]
fn completed_future_is_never_taken_again() {
    let mut slot = FutureSlot::new("job");
    let f = slot.take_for_poll().unwrap();
    slot.settle(f, false);
    assert_eq!(slot.take_for_poll(), None);
    assert_eq!(slot.take_for_poll(), None);
}
