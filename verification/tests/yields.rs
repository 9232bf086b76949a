use learn_async::poll::Polled;
use learn_async::yields::Yields;

#[test]
fn yields_zero_is_ready_at_once() {
    let mut y = Yields(0);
    assert_eq!(y.poll(), Polled::Ready(()));
    assert_eq!(y.0, 0);
    assert_eq!(y.poll(), Polled::Ready(()));
}

#[test]
fn yields_pending_exactly_n_times() {
    for n in [1u32, 3, 10] {
        let mut y = Yields(n);
        for k in 0..n {
            assert_eq!(y.poll(), Polled::Pending);
            assert_eq!(y.0, n - k - 1);
        }
        assert_eq!(y.poll(), Polled::Ready(()));
        assert_eq!(y.poll(), Polled::Ready(()));
    }
}
