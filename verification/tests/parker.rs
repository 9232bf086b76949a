use learn_async::parker::{ParkStep, Parker};

#[test]
fn new_parker_has_no_token() {
    let mut p = Parker::default();
    assert_eq!(p.park(), ParkStep::Wait);
    assert_eq!(p.park(), ParkStep::Wait);
}

#[test]
fn unpark_then_park_resumes_and_consumes() {
    let mut p = Parker::default();
    p.unpark();
    assert_eq!(p.park(), ParkStep::Resume);
    assert_eq!(p.park(), ParkStep::Wait);
}

#[test]
fn tokens_do_not_accumulate() {
    let mut p = Parker::default();
    p.unpark();
    p.unpark();
    assert_eq!(p.park(), ParkStep::Resume);
    assert_eq!(p.park(), ParkStep::Wait);
}
