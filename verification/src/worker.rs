//! What a worker does next. A worker belongs to one priority class. It
//! serves the queue of its class first, the queue of the other class when its
//! own gives nothing, and rests for a short while when both give nothing.

use crate::priority::FutureType;
use async_task::Runnable;
use flume::{Receiver, TryRecvError};
use vstd::prelude::*;

verus! {

/// How long a worker rests when both queues gave nothing, in milliseconds.
pub const BACKOFF_MILLIS: u64 = 100;

/// One turn of a worker's loop.
pub enum Job<R> {
    /// Poll `runnable` once; it came from the queue of class `from`.
    Run { runnable: R, from: FutureType },
    /// Both queues gave nothing: rest for `millis` milliseconds, then ask
    /// again.
    Idle { millis: u64 },
}

/// The turn that the answer of a worker's own queue settles, if it settles
/// one: what the queue gave is to be polled. `None` says that the fallback
/// queue has to be asked. A queue that is closed counts as one that is
/// empty.
pub open spec fn primary_for<R>(class: FutureType, first: Result<R, TryRecvError>) -> Option<
    Job<R>,
> {
    match first {
        Ok(runnable) => Some(Job::Run { runnable, from: class }),
        Err(_) => None,
    }
}

/// The turn of a worker of class `class` whose own queue gave nothing and
/// whose fallback queue answered `second`. A queue that is closed counts as
/// one that is empty.
pub open spec fn fallback_for<R>(class: FutureType, second: Result<R, TryRecvError>) -> Job<R> {
    match second {
        Ok(runnable) => Job::Run { runnable, from: class.other() },
        Err(_) => Job::Idle { millis: BACKOFF_MILLIS },
    }
}

/// The turn of a worker of class `class` whose own queue answered `first`
/// and whose fallback queue answered `second`: the turn that the own queue
/// settles, and else the turn that the fallback queue gives. What the first
/// queue gives is taken whatever the second holds.
pub open spec fn job_for<R>(
    class: FutureType,
    first: Result<R, TryRecvError>,
    second: Result<R, TryRecvError>,
) -> Job<R> {
    match primary_for(class, first) {
        Some(job) => job,
        None => fallback_for(class, second),
    }
}

/// The first step of a worker's turn; see [`primary_for`].
pub fn primary_job<R>(class: FutureType, first: Result<R, TryRecvError>) -> (job: Option<Job<R>>)
    ensures
        job == primary_for(class, first),
{
    match first {
        Ok(runnable) => Some(Job::Run { runnable, from: class }),
        Err(_) => None,
    }
}

/// The second step of a worker's turn, taken when the first settled nothing;
/// see [`fallback_for`].
pub fn fallback_job<R>(class: FutureType, second: Result<R, TryRecvError>) -> (job: Job<R>)
    ensures
        job == fallback_for(class, second),
{
    match second {
        Ok(runnable) => Job::Run { runnable, from: class.other() },
        Err(_) => Job::Idle { millis: BACKOFF_MILLIS },
    }
}

/// A worker: its class and the receiving ends of the two queues it serves.
pub struct Worker {
    class: FutureType,
    primary: Receiver<Runnable>,
    secondary: Receiver<Runnable>,
}

impl Worker {
    pub closed spec fn spec_class(&self) -> FutureType {
        self.class
    }

    /// The queue that the worker serves first.
    pub closed spec fn primary(&self) -> Receiver<Runnable> {
        self.primary
    }

    /// The queue that the worker serves when the first gave nothing.
    pub closed spec fn secondary(&self) -> Receiver<Runnable> {
        self.secondary
    }

    /// A worker of class `class` on the two given queues.
    pub(crate) fn new(
        class: FutureType,
        primary: Receiver<Runnable>,
        secondary: Receiver<Runnable>,
    ) -> (worker: Worker)
        ensures
            worker.class() == class,
            worker.primary() == primary,
            worker.secondary() == secondary,
    {
        Worker { class, primary, secondary }
    }

    /// The worker's class.
    #[verifier::when_used_as_spec(spec_class)]
    pub fn class(&self) -> (class: FutureType)
        ensures
            class == self.class(),
    {
        self.class
    }

    /// Asks the worker's own queue, then the fallback queue if the first gave
    /// nothing, and says what to do. Neither queue is waited on. What the
    /// queues answer is theirs to say; the turn is [`job_for`] of their
    /// answers, whatever they were. So a runnable is said to come from the
    /// worker's class or from the other, and a turn that rests does so for
    /// [`BACKOFF_MILLIS`].
    pub fn next_job(&self) -> (job: Job<Runnable>)
        ensures
            exists|first: Result<Runnable, TryRecvError>, second: Result<Runnable, TryRecvError>|
                job == job_for(self.class(), first, second),
            job matches Job::Run { from, .. } ==> from == self.class() || from
                == self.class().other(),
            job matches Job::Idle { millis } ==> millis == BACKOFF_MILLIS,
    {
        let first = self.primary.try_recv();
        let ghost asked = first;
        match primary_job(self.class, first) {
            Some(job) => {
                assert(job == job_for(self.class(), asked, asked));
                job
            },
            None => {
                let second = self.secondary.try_recv();
                let ghost fallback = second;
                let job = fallback_job(self.class, second);
                assert(job == job_for(self.class(), asked, fallback));
                job
            },
        }
    }
}

/// A worker serves the other class when its own queue is empty: if the own
/// queue gives nothing and the other queue gives `runnable`, the turn is to
/// poll `runnable`, for a worker of either class.
pub proof fn fallback_serves_other_class<R>(class: FutureType, nothing: TryRecvError, runnable: R)
    ensures
        job_for(class, Err(nothing), Ok(runnable)) == (Job::Run {
            runnable,
            from: class.other(),
        }),
{
}

/// A worker prefers its own class: whatever the other queue holds, what the
/// own queue gives is what the worker polls.
pub proof fn own_class_comes_first<R>(
    class: FutureType,
    runnable: R,
    second: Result<R, TryRecvError>,
)
    ensures
        job_for(class, Ok(runnable), second) == (Job::Run { runnable, from: class }),
{
}

/// No runnable is dropped by a worker's decision: the worker rests only when
/// both queues gave nothing, and otherwise polls a runnable that one of them
/// gave.
pub proof fn nothing_received_is_dropped<R>(
    class: FutureType,
    first: Result<R, TryRecvError>,
    second: Result<R, TryRecvError>,
)
    ensures
        job_for(class, first, second) is Idle <==> first is Err && second is Err,
        job_for(class, first, second) matches Job::Run { runnable, .. } ==> first == Ok::<
            R,
            TryRecvError,
        >(runnable) || second == Ok::<R, TryRecvError>(runnable),
{
}

} // verus!
