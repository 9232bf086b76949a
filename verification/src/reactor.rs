use std::collections::HashMap;
use vstd::prelude::*;
use vstd::pervasive::unreached;
use crate::poll::Polled;

verus! {

broadcast use vstd::std_specs::hash::group_hash_axioms;

/// Where a task registered with the reactor stands.
#[derive(Debug)]
pub enum TaskState<W> {
    /// Its timer has fired; the next poll completes it.
    Ready,
    /// Its timer has not fired; when it does, this waker is woken.
    NotReady(W),
    /// It has been polled to completion.
    Finished,
}

/// A message to the reactor's timer thread.
#[derive(Clone, Copy, Debug, PartialEq, Eq)]
pub enum Event {
    /// Stop handling events.
    Close,
    /// After this many seconds, wake the task with this id.
    Timeout(u64, usize),
}

/// The task table of a timer reactor, keyed by task id.
///
/// `W` is the waker type: the reactor only stores wakers and hands them back
/// when it is time to wake them.
pub struct Reactor<W> {
    tasks: HashMap<usize, TaskState<W>>,
}

impl<W> View for Reactor<W> {
    type V = Map<usize, TaskState<W>>;

    closed spec fn view(&self) -> Map<usize, TaskState<W>> {
        self.tasks@
    }
}

/// The task `id` is in the table and its timer has fired.
pub open spec fn task_is_ready<W>(tasks: Map<usize, TaskState<W>>, id: usize) -> bool {
    tasks.contains_key(id) && tasks[id] is Ready
}

/// The task `id` is in the table and waits for its timer.
pub open spec fn task_is_waiting<W>(tasks: Map<usize, TaskState<W>>, id: usize) -> bool {
    tasks.contains_key(id) && tasks[id] is NotReady
}

/// The table after the timer of task `id` has fired.
pub open spec fn wake_outcome<W>(tasks: Map<usize, TaskState<W>>, id: usize) -> Map<
    usize,
    TaskState<W>,
> {
    tasks.insert(id, TaskState::Ready)
}

/// One poll of the task `id` (carrying `data`) with the current `waker`: the
/// table afterwards, the poll's result, and the event to send to the timer
/// thread, if any.
///
/// A ready task completes with its id and is marked finished. Any other task
/// already in the table gets the new waker. A task not yet in the table is
/// registered with the waker, and a timer of `data` seconds is requested.
pub open spec fn poll_outcome<W>(
    tasks: Map<usize, TaskState<W>>,
    id: usize,
    data: u64,
    waker: W,
) -> (Map<usize, TaskState<W>>, Polled<usize>, Option<Event>) {
    if task_is_ready(tasks, id) {
        (tasks.insert(id, TaskState::Finished), Polled::Ready(id), None)
    } else if tasks.contains_key(id) {
        (tasks.insert(id, TaskState::NotReady(waker)), Polled::Pending, None)
    } else {
        (tasks.insert(id, TaskState::NotReady(waker)), Polled::Pending, Some(Event::Timeout(data, id)))
    }
}

impl<W> Reactor<W> {
    /// A reactor with no tasks.
    pub fn new() -> (r: Self)
        ensures
            r@ == Map::<usize, TaskState<W>>::empty(),
    {
        Reactor { tasks: HashMap::new() }
    }

    /// The timer of task `id` has fired: mark it ready and hand back the
    /// waker it was waiting with, to be woken.
    pub fn wake(&mut self, id: usize) -> (waker: W)
        requires
            task_is_waiting(old(self)@, id),
        ensures
            final(self)@ == wake_outcome(old(self)@, id),
            old(self)@[id] == TaskState::NotReady(waker),
    {
        match self.tasks.insert(id, TaskState::Ready) {
            Some(TaskState::NotReady(waker)) => waker,
            _ => unreached(),
        }
    }

    /// Enter task `id` as waiting with `waker`, and give the event that asks
    /// the timer thread to fire it after `duration` seconds.
    pub fn register(&mut self, duration: u64, waker: W, id: usize) -> (event: Event)
        requires
            !old(self)@.contains_key(id),
        ensures
            final(self)@ == old(self)@.insert(id, TaskState::NotReady(waker)),
            event == Event::Timeout(duration, id),
    {
        let _ = self.tasks.insert(id, TaskState::NotReady(waker));
        Event::Timeout(duration, id)
    }

    /// The event that stops the timer thread.
    pub fn close(&self) -> (event: Event)
        ensures
            event == Event::Close,
    {
        Event::Close
    }

    /// Whether task `id` is in the table and its timer has fired.
    pub fn is_ready(&self, id: usize) -> (ready: bool)
        ensures
            ready == task_is_ready(self@, id),
    {
        match self.tasks.get(&id) {
            Some(TaskState::Ready) => true,
            _ => false,
        }
    }

    /// The state of task `id`, if it is in the table.
    pub fn get(&self, id: usize) -> (state: Option<&TaskState<W>>)
        ensures
            match state {
                Some(s) => self@.contains_key(id) && *s == self@[id],
                None => !self@.contains_key(id),
            },
    {
        self.tasks.get(&id)
    }

    /// Whether task `id` is in the table.
    fn contains(&self, id: usize) -> (present: bool)
        ensures
            present == self@.contains_key(id),
    {
        self.tasks.contains_key(&id)
    }
}

/// A leaf future that waits for the reactor's timer of `data` seconds and
/// then completes with its `id`.
#[derive(Clone, Copy, Debug)]
pub struct Task {
    id: usize,
    data: u64,
}

impl Task {
    /// The task's id.
    pub closed spec fn task_id(&self) -> usize {
        self.id
    }

    /// The task's timer length in seconds.
    pub closed spec fn task_data(&self) -> u64 {
        self.data
    }

    /// A task with timer length `data` and id `id`.
    pub fn new(data: u64, id: usize) -> (t: Self)
        ensures
            t.task_id() == id,
            t.task_data() == data,
    {
        Task { id, data }
    }

    /// Poll the task once against the reactor's table, with the waker of the
    /// current context; see `poll_outcome`.
    pub fn poll<W>(&self, reactor: &mut Reactor<W>, waker: W) -> (res: (Polled<usize>, Option<Event>))
        ensures
            (final(reactor)@, res.0, res.1) == poll_outcome(old(reactor)@, self.task_id(), self.task_data(), waker),
    {
        if reactor.is_ready(self.id) {
            let _ = reactor.tasks.insert(self.id, TaskState::Finished);
            (Polled::Ready(self.id), None)
        } else if reactor.contains(self.id) {
            let _ = reactor.tasks.insert(self.id, TaskState::NotReady(waker));
            (Polled::Pending, None)
        } else {
            let event = reactor.register(self.data, waker, self.id);
            (Polled::Pending, Some(event))
        }
    }
}


/// A task's whole life: the first poll registers it and asks for its timer;
/// polls before the timer fires stay pending, ask for nothing more and leave
/// the latest waker behind; firing the timer hands that waker back; the next
/// poll completes the task with its id and marks it finished.
pub proof fn lemma_task_lifecycle<W>(
    tasks: Map<usize, TaskState<W>>,
    id: usize,
    data: u64,
    first: W,
    second: W,
    last: W,
)
    requires
        !tasks.contains_key(id),
    ensures
        ({
            let (t1, p1, e1) = poll_outcome(tasks, id, data, first);
            let (t2, p2, e2) = poll_outcome(t1, id, data, second);
            let t3 = wake_outcome(t2, id);
            let (t4, p4, e4) = poll_outcome(t3, id, data, last);
            &&& p1 == Polled::<usize>::Pending
            &&& e1 == Some(Event::Timeout(data, id))
            &&& task_is_waiting(t1, id)
            &&& t1[id] == TaskState::NotReady(first)
            &&& p2 == Polled::<usize>::Pending
            &&& e2 == None::<Event>
            &&& task_is_waiting(t2, id)
            &&& t2[id] == TaskState::NotReady(second)
            &&& p4 == Polled::Ready(id)
            &&& e4 == None::<Event>
            &&& t4[id] == TaskState::<W>::Finished
        }),
{
}

/// What a poll leaves behind, whatever the table: a pending poll always
/// leaves the task waiting with the very waker it was given (so the timer,
/// when it fires, wakes this poll's context), and a poll completes exactly
/// when the timer had fired, with the task's id, leaving the task finished.
/// The first poll of a task is always pending, asks for a timer of `data`
/// seconds, and leaves the task waiting with its waker.
pub proof fn lemma_poll_leaves_its_waker<W>(
    tasks: Map<usize, TaskState<W>>,
    id: usize,
    data: u64,
    waker: W,
)
    ensures
        ({
            let (after, polled, event) = poll_outcome(tasks, id, data, waker);
            &&& after.contains_key(id)
            &&& (polled is Pending ==> task_is_waiting(after, id) && after[id]
                == TaskState::NotReady(waker))
            &&& (polled is Ready <==> task_is_ready(tasks, id))
            &&& (polled is Ready ==> polled == Polled::Ready(id) && after[id]
                == TaskState::<W>::Finished)
            &&& (!tasks.contains_key(id) ==> {
                &&& polled is Pending
                &&& event == Some(Event::Timeout(data, id))
                &&& task_is_waiting(after, id)
                &&& after[id] == TaskState::NotReady(waker)
            })
        }),
{
}

/// No operation removes a task from the table.
pub proof fn lemma_tasks_never_forgotten<W>(
    tasks: Map<usize, TaskState<W>>,
    id: usize,
    data: u64,
    waker: W,
    other: usize,
)
    requires
        tasks.contains_key(other),
    ensures
        poll_outcome(tasks, id, data, waker).0.contains_key(other),
        poll_outcome(tasks, id, data, waker).0.contains_key(id),
        wake_outcome(tasks, id).contains_key(other),
        tasks.insert(id, TaskState::NotReady(waker)).contains_key(other),
{
}

/// Polling one task leaves every other task's state as it was.
pub proof fn lemma_poll_touches_only_its_task<W>(
    tasks: Map<usize, TaskState<W>>,
    id: usize,
    data: u64,
    waker: W,
    other: usize,
)
    requires
        other != id,
    ensures
        poll_outcome(tasks, id, data, waker).0.contains_key(other) == tasks.contains_key(other),
        tasks.contains_key(other) ==> poll_outcome(tasks, id, data, waker).0[other] == tasks[other],
        wake_outcome(tasks, id).contains_key(other) == tasks.contains_key(other),
        tasks.contains_key(other) ==> wake_outcome(tasks, id)[other] == tasks[other],
{
}

/// A timer is asked for exactly when a task is polled for the first time, so
/// each task asks for at most one timer.
pub proof fn lemma_one_timer_per_task<W>(
    tasks: Map<usize, TaskState<W>>,
    id: usize,
    data: u64,
    waker: W,
)
    ensures
        poll_outcome(tasks, id, data, waker).2 is Some <==> !tasks.contains_key(id),
        poll_outcome(tasks, id, data, waker).0.contains_key(id),
{
}

/// A poll completes the task only after its timer has fired, and leaves it
/// not ready: a task never completes twice without its timer firing again.
pub proof fn lemma_ready_only_after_wake<W>(
    tasks: Map<usize, TaskState<W>>,
    id: usize,
    data: u64,
    waker: W,
)
    ensures
        poll_outcome(tasks, id, data, waker).1 is Ready <==> task_is_ready(tasks, id),
        !task_is_ready(poll_outcome(tasks, id, data, waker).0, id),
        task_is_ready(wake_outcome(tasks, id), id),
{
}

} // verus!
