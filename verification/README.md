# learn_async

Verified cores of a small asynchronous runtime, with the threads, locks,
channels and `Future` impls around them in `app/`.

- `src/parker.rs`: the wake-up token of a parked thread (`park` / `unpark`).
- `src/reactor.rs`: the task table of a timer reactor, the timer task's poll,
  and the laws of a task's life.
- `src/executor.rs`: the slot that holds a spawned future between polls.
- `src/yields.rs`: a future that yields a given number of times.
- `src/block_on.rs`: one turn of a blocking executor loop, parking on a
  `crossbeam` parker.
- `app/`: the reactor demo program, the channel-fed executor and the
  `block_on` versions.
