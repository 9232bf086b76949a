use learn_async::poll::Polled;
use learn_async::reactor::{Event, Reactor, Task, TaskState};

#[test]
fn first_poll_registers_and_asks_for_a_timer() {
    let mut reactor: Reactor<u32> = Reactor::new();
    let task = Task::new(3, 1);
    let (polled, event) = task.poll(&mut reactor, 10);
    assert_eq!(polled, Polled::Pending);
    assert_eq!(event, Some(Event::Timeout(3, 1)));
    assert!(matches!(reactor.get(1), Some(TaskState::NotReady(10))));
    assert!(!reactor.is_ready(1));
}

#[test]
fn task_lifecycle_pending_then_ready_with_its_id() {
    let mut reactor: Reactor<u32> = Reactor::new();
    let task = Task::new(2, 7);
    assert_eq!(task.poll(&mut reactor, 1), (Polled::Pending, Some(Event::Timeout(2, 7))));
    // A second poll before the timer fires asks for no new timer and leaves its waker.
    assert_eq!(task.poll(&mut reactor, 2), (Polled::Pending, None));
    assert!(matches!(reactor.get(7), Some(TaskState::NotReady(2))));
    // The timer fires: the latest waker comes back and the task is ready.
    assert_eq!(reactor.wake(7), 2);
    assert!(reactor.is_ready(7));
    // The task completes with its id, not its data.
    assert_eq!(task.poll(&mut reactor, 3), (Polled::Ready(7), None));
    assert!(matches!(reactor.get(7), Some(TaskState::Finished)));
    assert!(!reactor.is_ready(7));
}

#[test]
fn finished_task_polled_again_waits_without_a_new_timer() {
    let mut reactor: Reactor<u32> = Reactor::new();
    let task = Task::new(1, 4);
    let _ = task.poll(&mut reactor, 1);
    let _ = reactor.wake(4);
    assert_eq!(task.poll(&mut reactor, 2), (Polled::Ready(4), None));
    assert_eq!(task.poll(&mut reactor, 5), (Polled::Pending, None));
    assert!(matches!(reactor.get(4), Some(TaskState::NotReady(5))));
}

#[test]
fn polling_one_task_leaves_others_alone() {
    let mut reactor: Reactor<u32> = Reactor::new();
    let a = Task::new(1, 1);
    let b = Task::new(2, 2);
    let _ = a.poll(&mut reactor, 11);
    let _ = b.poll(&mut reactor, 22);
    let _ = reactor.wake(1);
    assert!(matches!(reactor.get(2), Some(TaskState::NotReady(22))));
    assert_eq!(a.poll(&mut reactor, 12), (Polled::Ready(1), None));
    assert!(matches!(reactor.get(2), Some(TaskState::NotReady(22))));
    assert!(!reactor.is_ready(2));
    assert_eq!(reactor.wake(2), 22);
    assert!(matches!(reactor.get(1), Some(TaskState::Finished)));
}

#[test]
fn register_enters_waiting_task_and_gives_timeout() {
    let mut reactor: Reactor<u32> = Reactor::new();
    assert_eq!(reactor.register(9, 100, 3), Event::Timeout(9, 3));
    assert!(matches!(reactor.get(3), Some(TaskState::NotReady(100))));
    assert!(reactor.get(4).is_none());
}

#[test]
fn close_gives_close_event() {
    let reactor: Reactor<u32> = Reactor::new();
    assert_eq!(reactor.close(), Event::Close);
}

#[test]
fn unknown_task_is_not_ready() {
    let reactor: Reactor<u32> = Reactor::new();
    assert!(!reactor.is_ready(0));
    assert!(reactor.get(0).is_none());
}
