//! A small cooperative task scheduler with two priority classes.
//!
//! Work is submitted to a [`scheduler::Scheduler`] together with a
//! [`priority::FutureType`]. Each class has an unbounded FIFO queue of its
//! own and a fixed number of workers, set through [`config::Runtime`]. A
//! worker serves its own queue first and the other class's queue when its own
//! is empty.
//!
//! The library decides and routes; it starts no thread and never blocks. The
//! embedding program runs one loop per [`worker::Worker`], polls what
//! [`worker::Worker::next_job`] hands out, and waits on the task handles
//! before it aggregates their outcomes with [`join::join`] or
//! [`join::try_join`].

pub mod channel;
pub mod config;
pub mod join;
pub mod priority;
pub mod scheduler;
pub mod worker;
