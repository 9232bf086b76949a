//! Verified cores of a small asynchronous runtime: a wake-up token, a timer
//! reactor that tracks the state of each task, the future slot of a spawned
//! task, a future that yields a fixed number of times, and the step of a
//! blocking executor loop.
pub mod parker;
pub mod poll;
pub mod reactor;
pub mod yields;
pub mod executor;
pub mod block_on;
