use async_queues::config::Runtime;
use async_queues::join::{join, try_join, JoinError};
use async_queues::priority::FutureType;
use async_queues::scheduler::{requeue, reschedule, Pools, Scheduler, SpawnError};
use async_queues::worker::{Job, Worker, BACKOFF_MILLIS};
use async_task::{Runnable, Task};
use futures_lite::future::block_on;
use std::future::Future;
use std::pin::Pin;
use std::sync::{Arc, Mutex};
use std::task::{Context, Poll};

/// Resolves to 3 at its third poll, and asks to be polled again before that.
struct CounterFuture {
    count: u32,
}

impl Future for CounterFuture {
    type Output = u32;

    fn poll(mut self: Pin<&mut Self>, cx: &mut Context<'_>) -> Poll<u32> {
        self.count += 1;
        if self.count < 3 {
            cx.waker().wake_by_ref();
            Poll::Pending
        } else {
            Poll::Ready(self.count)
        }
    }
}

/// Writes its name into a shared log when it is polled, and is then done.
struct Named {
    name: &'static str,
    log: Arc<Mutex<Vec<&'static str>>>,
}

impl Future for Named {
    type Output = &'static str;

    fn poll(self: Pin<&mut Self>, _cx: &mut Context<'_>) -> Poll<&'static str> {
        self.log.lock().unwrap().push(self.name);
        Poll::Ready(self.name)
    }
}

/// Takes the next job of `worker` and destroys its runnable unpolled: what
/// is left of a unit of work whose poll failed.
fn fail_next(worker: &Worker) {
    match worker.next_job() {
        Job::Run { runnable, .. } => drop(runnable),
        Job::Idle { .. } => panic!("the worker found no work"),
    }
}

/// Runs the loops of `workers` in turn on the calling thread until a whole
/// round finds nothing to do. Returns, for each worker, the classes of the
/// queues it polled from, in order.
fn drain(workers: &[&Worker]) -> Vec<Vec<FutureType>> {
    let mut served: Vec<Vec<FutureType>> = workers.iter().map(|_| Vec::new()).collect();
    loop {
        let mut idle = 0;
        for (at, worker) in workers.iter().enumerate() {
            match worker.next_job() {
                Job::Run { runnable, from } => {
                    runnable.run();
                    served[at].push(from);
                }
                Job::Idle { millis } => {
                    assert_eq!(millis, BACKOFF_MILLIS);
                    idle += 1;
                }
            }
        }
        if idle == workers.len() {
            return served;
        }
    }
}

fn started(high: usize, low: usize) -> (Scheduler, Pools) {
    let mut scheduler = Scheduler::new(Runtime::new(4));
    let pools = Runtime::new(4)
        .with_high_num(high)
        .with_low_num(low)
        .run(&mut scheduler);
    (scheduler, pools)
}

fn all_of(pools: &Pools) -> Vec<&Worker> {
    pools.high.iter().chain(pools.low.iter()).collect()
}

fn wait<T>(task: Task<T>) -> Option<T> {
    block_on(task.fallible())
}

#[test]
fn three_high_counters_join_to_threes() {
    let (mut scheduler, pools) = started(2, 1);
    assert_eq!(pools.high.len(), 2);
    assert_eq!(pools.low.len(), 1);
    let mut handles = Vec::new();
    for _ in 0..3 {
        let submission = scheduler.spawn_task(CounterFuture { count: 0 }, FutureType::High);
        assert!(submission.pools.high.is_empty() && submission.pools.low.is_empty());
        handles.push(submission.task.unwrap());
    }
    let served = drain(&all_of(&pools));
    let polls: usize = served.iter().map(|s| s.len()).sum();
    assert_eq!(polls, 9);
    let outcomes: Vec<Option<u32>> = handles.into_iter().map(wait).collect();
    assert_eq!(join(outcomes), Ok(vec![3, 3, 3]));
}

#[test]
fn a_failed_task_does_not_stop_the_next() {
    let (mut scheduler, pools) = started(1, 1);
    let bad = scheduler
        .spawn_task(CounterFuture { count: 0 }, FutureType::High)
        .task
        .unwrap();
    let good = scheduler
        .spawn_task(CounterFuture { count: 0 }, FutureType::High)
        .task
        .unwrap();
    fail_next(&pools.high[0]);
    let served = drain(&[&pools.high[0]]);
    assert_eq!(served[0].len(), 3);
    let outcomes = vec![wait(bad), wait(good)];
    assert_eq!(try_join(outcomes), vec![Err(JoinError { index: 0 }), Ok(3)]);
}

#[test]
fn a_failed_task_ends_a_plain_join() {
    let (mut scheduler, pools) = started(1, 0);
    let first = scheduler
        .spawn_task(CounterFuture { count: 0 }, FutureType::Low)
        .task
        .unwrap();
    let bad = scheduler
        .spawn_task(CounterFuture { count: 0 }, FutureType::Low)
        .task
        .unwrap();
    let last = scheduler
        .spawn_task(CounterFuture { count: 0 }, FutureType::Low)
        .task
        .unwrap();
    let worker = &pools.high[0];
    match worker.next_job() {
        Job::Run { runnable, .. } => {
            runnable.run();
        }
        Job::Idle { .. } => panic!("the worker found no work"),
    }
    fail_next(worker);
    drain(&[worker]);
    let outcomes = vec![wait(first), wait(bad), wait(last)];
    assert_eq!(join(outcomes), Err(JoinError { index: 1 }));
}

#[test]
fn every_submitted_task_is_polled_and_resolves() {
    let (mut scheduler, pools) = started(2, 2);
    let mut handles = Vec::new();
    for turn in 0..10 {
        let order = if turn % 3 == 0 {
            FutureType::Low
        } else {
            FutureType::High
        };
        let submission = scheduler.spawn_task(CounterFuture { count: 0 }, order);
        handles.push(submission.task.unwrap());
    }
    let served = drain(&all_of(&pools));
    let polls: usize = served.iter().map(|s| s.len()).sum();
    assert_eq!(polls, 30);
    for handle in handles {
        assert!(handle.is_finished());
        assert_eq!(wait(handle), Some(3));
    }
}

#[test]
fn a_high_worker_serves_low_work_when_idle() {
    let (mut scheduler, pools) = started(1, 0);
    let handle = scheduler
        .spawn_task(CounterFuture { count: 0 }, FutureType::Low)
        .task
        .unwrap();
    let worker = &pools.high[0];
    assert_eq!(worker.class(), FutureType::High);
    let served = drain(&[worker]);
    assert_eq!(served[0], vec![FutureType::Low; 3]);
    assert_eq!(wait(handle), Some(3));
}

#[test]
fn a_low_worker_serves_high_work_when_idle() {
    let (mut scheduler, pools) = started(0, 1);
    let handle = scheduler
        .spawn_task(CounterFuture { count: 0 }, FutureType::High)
        .task
        .unwrap();
    let worker = &pools.low[0];
    assert_eq!(worker.class(), FutureType::Low);
    let served = drain(&[worker]);
    assert_eq!(served[0], vec![FutureType::High; 3]);
    assert_eq!(wait(handle), Some(3));
}

#[test]
fn a_worker_takes_its_own_class_first() {
    let (mut scheduler, pools) = started(1, 1);
    let log = Arc::new(Mutex::new(Vec::new()));
    let mut handles = Vec::new();
    for (name, order) in [
        ("low one", FutureType::Low),
        ("high one", FutureType::High),
        ("low two", FutureType::Low),
        ("high two", FutureType::High),
    ] {
        let future = Named {
            name,
            log: log.clone(),
        };
        handles.push(scheduler.spawn_task(future, order).task.unwrap());
    }
    let served = drain(&[&pools.high[0]]);
    assert_eq!(
        served[0],
        vec![
            FutureType::High,
            FutureType::High,
            FutureType::Low,
            FutureType::Low
        ]
    );
    assert_eq!(
        *log.lock().unwrap(),
        vec!["high one", "high two", "low one", "low two"]
    );
    let served = drain(&[&pools.low[0]]);
    assert!(served[0].is_empty());
    let outcomes: Vec<Option<&str>> = handles.into_iter().map(wait).collect();
    assert_eq!(
        join(outcomes),
        Ok(vec!["low one", "high one", "low two", "high two"])
    );
}

#[test]
fn join_keeps_the_order_of_the_handles_not_of_completion() {
    let (mut scheduler, pools) = started(1, 1);
    let log = Arc::new(Mutex::new(Vec::new()));
    let a = scheduler
        .spawn_task(
            Named {
                name: "a",
                log: log.clone(),
            },
            FutureType::Low,
        )
        .task
        .unwrap();
    let b = scheduler
        .spawn_task(
            Named {
                name: "b",
                log: log.clone(),
            },
            FutureType::High,
        )
        .task
        .unwrap();
    drain(&[&pools.high[0]]);
    assert_eq!(*log.lock().unwrap(), vec!["b", "a"]);
    assert_eq!(join(vec![wait(a), wait(b)]), Ok(vec!["a", "b"]));
}

#[test]
fn workers_rest_when_both_queues_are_empty() {
    let (_scheduler, pools) = started(1, 1);
    for worker in all_of(&pools) {
        match worker.next_job() {
            Job::Idle { millis } => assert_eq!(millis, 100),
            Job::Run { .. } => panic!("nothing was submitted"),
        }
    }
}

#[test]
fn the_first_submission_starts_the_pools_once() {
    let config = Runtime::new(4).with_high_num(3).with_low_num(2);
    let mut scheduler = Scheduler::new(config);
    assert!(!scheduler.started());
    let first = scheduler.spawn_task(CounterFuture { count: 0 }, FutureType::Low);
    assert!(scheduler.started());
    assert_eq!(first.pools.high.len(), 3);
    assert_eq!(first.pools.low.len(), 2);
    for worker in &first.pools.high {
        assert_eq!(worker.class(), FutureType::High);
    }
    for worker in &first.pools.low {
        assert_eq!(worker.class(), FutureType::Low);
    }
    let second = scheduler.spawn_task(CounterFuture { count: 0 }, FutureType::High);
    assert!(second.pools.high.is_empty() && second.pools.low.is_empty());
    let again = scheduler.start();
    assert!(again.high.is_empty() && again.low.is_empty());
    drain(&all_of(&first.pools));
    assert_eq!(wait(first.task.unwrap()), Some(3));
    assert_eq!(wait(second.task.unwrap()), Some(3));
}

#[test]
fn configuring_after_the_first_submission_changes_nothing() {
    let config = Runtime::new(4).with_high_num(2).with_low_num(1);
    let mut scheduler = Scheduler::new(config);
    let first = scheduler.spawn_task(CounterFuture { count: 0 }, FutureType::High);
    assert_eq!(first.pools.high.len(), 2);
    let late = config.with_high_num(7);
    scheduler.configure(late);
    assert_eq!(scheduler.config(), config);
    assert_eq!(scheduler.config().high_num(), 2);
    let pools = late.run(&mut scheduler);
    assert!(pools.high.is_empty() && pools.low.is_empty());
    assert_eq!(scheduler.config(), config);
}

#[test]
fn configuring_before_the_start_replaces_the_configuration() {
    let mut scheduler = Scheduler::new(Runtime::new(8));
    assert_eq!(scheduler.config().high_num(), 6);
    scheduler.configure(Runtime::new(8).with_high_num(2));
    scheduler.configure(Runtime::new(8).with_high_num(5).with_low_num(3));
    assert!(!scheduler.started());
    let pools = scheduler.start();
    assert_eq!(pools.high.len(), 5);
    assert_eq!(pools.low.len(), 3);
    assert_eq!(
        scheduler.config(),
        Runtime::new(1).with_high_num(5).with_low_num(3)
    );
}

#[test]
fn a_scheduler_without_workers_still_queues_work() {
    let (mut scheduler, pools) = started(0, 0);
    assert!(pools.high.is_empty() && pools.low.is_empty());
    let handle = scheduler
        .spawn_task(CounterFuture { count: 0 }, FutureType::High)
        .task
        .unwrap();
    assert!(!handle.is_finished());
}

#[test]
fn a_submission_never_fails_while_the_scheduler_lives() {
    let (mut scheduler, pools) = started(2, 1);
    drop(pools);
    let mut handles = Vec::new();
    for turn in 0..6 {
        let order = if turn % 2 == 0 {
            FutureType::High
        } else {
            FutureType::Low
        };
        let submission = scheduler.spawn_task(CounterFuture { count: 0 }, order);
        assert!(submission.task.is_ok());
        handles.push(submission.task.unwrap());
    }
    assert!(handles.iter().all(|handle| !handle.is_finished()));
}

#[test]
fn two_schedulers_do_not_share_queues() {
    let (mut one, _pools_one) = started(1, 1);
    let (_two, pools_two) = started(1, 1);
    let handle = one
        .spawn_task(CounterFuture { count: 0 }, FutureType::High)
        .task
        .unwrap();
    let served = drain(&all_of(&pools_two));
    assert!(served.iter().all(|s| s.is_empty()));
    assert!(!handle.is_finished());
}

#[test]
fn reschedule_puts_the_runnable_on_the_given_queue() {
    let (tx, rx) = flume::unbounded();
    let (other_tx, other_rx) = flume::unbounded::<Runnable>();
    let wake_tx = other_tx.clone();
    let (runnable, handle) = async_task::spawn(CounterFuture { count: 0 }, move |r| {
        wake_tx.send(r).unwrap()
    });
    assert!(reschedule(&tx, runnable).is_ok());
    assert_eq!(rx.len(), 1);
    assert_eq!(other_rx.len(), 0);
    drop(handle);
}

#[test]
fn reschedule_on_a_closed_queue_gives_the_runnable_back() {
    let (tx, rx) = flume::unbounded();
    drop(rx);
    let (back_tx, back_rx) = flume::unbounded::<Runnable>();
    let (runnable, handle) = async_task::spawn(CounterFuture { count: 0 }, move |r| {
        back_tx.send(r).unwrap()
    });
    let refused = reschedule(&tx, runnable).unwrap_err();
    assert_eq!(refused.reason, SpawnError::Disconnected);
    assert!(!handle.is_finished());
    refused.message.run();
    for _ in 0..2 {
        assert!(!handle.is_finished());
        back_rx.try_recv().unwrap().run();
    }
    assert_eq!(wait(handle), Some(3));
}

#[test]
fn reschedule_on_a_full_queue_does_not_wait() {
    let (tx, rx) = flume::bounded(1);
    let (back_tx, back_rx) = flume::unbounded::<Runnable>();
    let wake_tx = back_tx.clone();
    let (first, first_handle) = async_task::spawn(CounterFuture { count: 0 }, move |r| {
        wake_tx.send(r).unwrap()
    });
    let (second, second_handle) = async_task::spawn(CounterFuture { count: 0 }, move |r| {
        back_tx.send(r).unwrap()
    });
    assert!(reschedule(&tx, first).is_ok());
    let refused = reschedule(&tx, second).unwrap_err();
    assert_eq!(refused.reason, SpawnError::Full);
    assert_eq!(rx.len(), 1);
    refused.message.run();
    back_rx.try_recv().unwrap().run();
    back_rx.try_recv().unwrap().run();
    assert_eq!(wait(second_handle), Some(3));
    drop(first_handle);
}

#[test]
fn reschedule_on_a_queue_without_room_for_any_does_not_wait() {
    let (tx, rx) = flume::bounded(0);
    let (back_tx, _back_rx) = flume::unbounded::<Runnable>();
    let (runnable, handle) = async_task::spawn(CounterFuture { count: 0 }, move |r| {
        back_tx.send(r).unwrap()
    });
    let refused = reschedule(&tx, runnable).unwrap_err();
    assert_eq!(refused.reason, SpawnError::Full);
    assert!(rx.is_empty());
    drop(refused);
    assert_eq!(wait(handle), None);
}

#[test]
fn requeue_gives_up_what_a_closed_queue_refuses() {
    let (tx, rx) = flume::unbounded();
    drop(rx);
    let (back_tx, back_rx) = flume::unbounded::<Runnable>();
    let (runnable, handle) = async_task::spawn(CounterFuture { count: 0 }, move |r| {
        back_tx.send(r).unwrap()
    });
    requeue(&tx, runnable);
    assert!(back_rx.is_empty());
    assert_eq!(wait(handle), None);
}

#[test]
fn requeue_puts_the_runnable_on_the_queue() {
    let (tx, rx) = flume::unbounded();
    let (back_tx, back_rx) = flume::unbounded::<Runnable>();
    let (runnable, handle) = async_task::spawn(CounterFuture { count: 0 }, move |r| {
        back_tx.send(r).unwrap()
    });
    requeue(&tx, runnable);
    assert_eq!(rx.len(), 1);
    assert!(back_rx.is_empty());
    rx.try_recv().unwrap().run();
    assert_eq!(back_rx.len(), 1);
    drop(handle);
}

#[test]
fn each_route_feeds_the_workers_of_its_class_first() {
    for order in [FutureType::High, FutureType::Low] {
        let (scheduler, pools) = started(1, 1);
        let wake = scheduler.route(order).clone();
        let (runnable, handle) =
            async_task::spawn(CounterFuture { count: 0 }, move |r| requeue(&wake, r));
        assert!(reschedule(scheduler.route(order), runnable).is_ok());
        let (own, other) = match order {
            FutureType::High => (&pools.high[0], &pools.low[0]),
            FutureType::Low => (&pools.low[0], &pools.high[0]),
        };
        match own.next_job() {
            Job::Run { runnable, from } => {
                assert_eq!(from, order);
                runnable.run();
            }
            Job::Idle { .. } => panic!("the queue of the class holds the work"),
        }
        match other.next_job() {
            Job::Run { runnable, from } => {
                assert_eq!(from, order);
                runnable.run();
            }
            Job::Idle { .. } => panic!("the fallback queue holds the work"),
        }
        let served = drain(&[other]);
        assert_eq!(served[0], vec![order]);
        assert_eq!(wait(handle), Some(3));
    }
}

#[test]
fn a_submission_travels_on_the_queue_of_its_class() {
    for order in [FutureType::High, FutureType::Low] {
        let (mut scheduler, pools) = started(1, 1);
        let handle = scheduler
            .spawn_task(CounterFuture { count: 0 }, order)
            .task
            .unwrap();
        let own = match order {
            FutureType::High => &pools.high[0],
            FutureType::Low => &pools.low[0],
        };
        let served = drain(&[own]);
        assert_eq!(served[0], vec![order; 3]);
        assert_eq!(wait(handle), Some(3));
    }
}

#[test]
fn a_task_woken_after_its_scheduler_is_gone_is_cancelled() {
    let (mut scheduler, pools) = started(1, 0);
    let handle = scheduler
        .spawn_task(CounterFuture { count: 0 }, FutureType::High)
        .task
        .unwrap();
    let job = pools.high[0].next_job();
    drop(pools);
    drop(scheduler);
    match job {
        Job::Run { runnable, from } => {
            assert_eq!(from, FutureType::High);
            runnable.run();
        }
        Job::Idle { .. } => panic!("one task was submitted"),
    }
    assert_eq!(wait(handle), None);
}
