use crossbeam::sync::Parker;
use learn_async::block_on::complete_or_park;
use learn_async::poll::Polled;

#[test]
fn ready_value_ends_the_loop() {
    let parker = Parker::new();
    assert_eq!(complete_or_park(Polled::Ready(42u32), &parker), Some(42));
}

#[test]
fn pending_parks_until_the_token_is_there() {
    let parker = Parker::new();
    parker.unparker().unpark();
    // The token is there, so parking returns at once and consumes it.
    assert_eq!(complete_or_park(Polled::<u32>::Pending, &parker), None);
    // And once consumed, a new token is needed before the next park returns.
    parker.unparker().unpark();
    assert_eq!(complete_or_park(Polled::<u32>::Pending, &parker), None);
}
