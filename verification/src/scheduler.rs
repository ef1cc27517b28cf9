//! The scheduler: two queues, one per priority class, and the pools of
//! workers that serve them. The pools start once, with the configuration
//! that the scheduler holds at that moment; later attempts to configure or
//! to start change nothing.

use crate::channel::{feeds, offer, open_queue, unbounded, wrap};
use crate::config::Runtime;
use crate::priority::FutureType;
use crate::worker::Worker;
use async_task::{Runnable, Task};
use flume::{Receiver, Sender, TrySendError};
use std::future::Future;
use vstd::prelude::*;

verus! {

/// Why a queue did not take a runnable.
#[derive(Clone, Copy, Debug, PartialEq, Eq, Structural)]
pub enum SpawnError {
    /// The queue has lost every receiver, so nothing would ever run the
    /// work.
    Disconnected,
    /// The queue was made with a limit and has no room.
    Full,
}

/// A message that a queue did not take, and why.
#[derive(Debug, PartialEq, Eq)]
pub struct Refused<M> {
    pub message: M,
    pub reason: SpawnError,
}

/// The workers that a start hands out, by class. Each is to be run on a
/// thread of its own.
pub struct Pools {
    pub high: Vec<Worker>,
    pub low: Vec<Worker>,
}

impl Pools {
    /// No worker of either class.
    pub open spec fn is_empty(&self) -> bool {
        self.high@.len() == 0 && self.low@.len() == 0
    }

    /// The workers of one class.
    pub open spec fn of(&self, class: FutureType) -> Seq<Worker> {
        match class {
            FutureType::High => self.high@,
            FutureType::Low => self.low@,
        }
    }
}

/// What a submission gives back: the handle of the task, and the workers
/// that this submission has started, if it was the one that started the
/// pools. The handle comes as a result because a queue may refuse a
/// runnable; the queues of a scheduler never do, see
/// [`Scheduler::spawn_task`].
#[verifier::reject_recursive_types(T)]
pub struct Submission<T> {
    pub task: Result<Task<T>, SpawnError>,
    pub pools: Pools,
}

/// What becomes of a submission once its runnable has been offered to the
/// queue: the handle if the queue took the runnable, and the queue's reason
/// if it did not.
pub open spec fn submitted<H, M>(queued: Result<(), Refused<M>>, handle: H) -> Result<
    H,
    SpawnError,
> {
    match queued {
        Ok(_) => Ok(handle),
        Err(refused) => Err(refused.reason),
    }
}

/// Settles a submission from the queue's answer; see [`submitted`]. A
/// runnable that the queue gave back is given up here, which cancels its
/// task.
pub fn conclude<H, M>(queued: Result<(), Refused<M>>, handle: H) -> (out: Result<H, SpawnError>)
    ensures
        out == submitted(queued, handle),
{
    match queued {
        Ok(_) => Ok(handle),
        Err(refused) => Err(refused.reason),
    }
}

/// Offers a runnable to `queue`, which puts it at its back, and never waits.
/// Whether the queue takes the runnable is the queue's to say. A queue that
/// does not take it gives the same runnable back, so that none is lost
/// without the caller knowing, and says why; only a queue that was made with
/// a limit is ever full.
pub fn reschedule(queue: &Sender<Runnable>, runnable: Runnable) -> (out: Result<
    (),
    Refused<Runnable>,
>)
    ensures
        out matches Err(refused) ==> refused.message == runnable,
        out matches Err(refused) ==> refused.reason == SpawnError::Full ==> !unbounded(*queue),
{
    let sent = offer(queue, None, runnable);
    take_back(sent)
}

/// What a queue's answer to an offered message means for the one who
/// offered it: nothing more to do if the queue took the message, and the
/// message itself with the reason if the queue did not.
pub open spec fn given_back<M>(sent: Result<(), TrySendError<M>>) -> Result<(), Refused<M>> {
    match sent {
        Ok(_) => Ok(()),
        Err(TrySendError::Full(message)) => Err(Refused { message, reason: SpawnError::Full }),
        Err(TrySendError::Disconnected(message)) => Err(
            Refused { message, reason: SpawnError::Disconnected },
        ),
    }
}

/// Takes a refused message out of the queue's answer; see [`given_back`].
pub fn take_back<M>(sent: Result<(), TrySendError<M>>) -> (out: Result<(), Refused<M>>)
    ensures
        out == given_back(sent),
{
    match sent {
        Ok(_) => Ok(()),
        Err(TrySendError::Full(message)) => Err(Refused { message, reason: SpawnError::Full }),
        Err(TrySendError::Disconnected(message)) => Err(
            Refused { message, reason: SpawnError::Disconnected },
        ),
    }
}

/// What the wake-up of a task does: it offers the task's runnable to the
/// queue that the task was submitted on, and polls nothing. A runnable that
/// the queue does not take is given up, which cancels its task: with no
/// receiver left, nothing would ever poll it.
pub fn requeue(queue: &Sender<Runnable>, runnable: Runnable) {
    let _ = reschedule(queue, runnable);
}

/// Two queues and the state of the pools that serve them.
pub struct Scheduler {
    high_tx: Sender<Runnable>,
    high_rx: Receiver<Runnable>,
    low_tx: Sender<Runnable>,
    low_rx: Receiver<Runnable>,
    config: Runtime,
    started: bool,
}

impl Scheduler {
    /// The sending end of the queue of `class`.
    pub closed spec fn sender(&self, class: FutureType) -> Sender<Runnable> {
        match class {
            FutureType::High => self.high_tx,
            FutureType::Low => self.low_tx,
        }
    }

    /// The receiving end of the queue of `class`.
    pub closed spec fn receiver(&self, class: FutureType) -> Receiver<Runnable> {
        match class {
            FutureType::High => self.high_rx,
            FutureType::Low => self.low_rx,
        }
    }

    pub closed spec fn spec_config(&self) -> Runtime {
        self.config
    }

    pub closed spec fn spec_started(&self) -> bool {
        self.started
    }

    #[verifier::type_invariant]
    spec fn made_whole(&self) -> bool {
        &&& feeds(self.high_tx, self.high_rx)
        &&& feeds(self.low_tx, self.low_rx)
        &&& unbounded(self.high_tx)
        &&& unbounded(self.low_tx)
    }

    /// The queue of `class` is one channel without a limit: what is sent on
    /// its sending end is what its receiving end gives.
    pub open spec fn wired(&self, class: FutureType) -> bool {
        &&& feeds(self.sender(class), self.receiver(class))
        &&& unbounded(self.sender(class))
    }

    /// The number of workers of `class` that the scheduler has handed out:
    /// none before the start, the configured number from then on.
    pub open spec fn live_workers(&self, class: FutureType) -> nat {
        if self.started() {
            self.config().workers(class) as nat
        } else {
            0
        }
    }

    /// Both queues are wired.
    pub open spec fn whole(&self) -> bool {
        self.wired(FutureType::High) && self.wired(FutureType::Low)
    }

    /// `other` has the very queues of `self`.
    pub open spec fn same_queues(&self, other: Scheduler) -> bool {
        forall|class: FutureType|
            #![trigger self.sender(class)]
            #![trigger self.receiver(class)]
            self.sender(class) == other.sender(class) && self.receiver(class) == other.receiver(
                class,
            )
    }

    /// `worker` is a worker of `class` on this scheduler: it serves the queue
    /// of `class` first and the queue of the other class as its fallback.
    pub open spec fn serves(&self, worker: Worker, class: FutureType) -> bool {
        &&& worker.class() == class
        &&& worker.primary() == self.receiver(class)
        &&& worker.secondary() == self.receiver(class.other())
    }

    /// `pool` holds `count` workers of `class` on this scheduler.
    pub open spec fn pool_of(&self, pool: Seq<Worker>, class: FutureType, count: nat) -> bool {
        &&& pool.len() == count
        &&& forall|i: int| 0 <= i < pool.len() ==> self.serves(#[trigger] pool[i], class)
    }

    /// `pools` is what a start in this state hands out: nothing if the pools
    /// have started, else the configured number of workers of each class.
    pub open spec fn due(&self, pools: Pools) -> bool {
        if self.started() {
            pools.is_empty()
        } else {
            &&& self.pool_of(pools.high@, FutureType::High, self.config().high_num() as nat)
            &&& self.pool_of(pools.low@, FutureType::Low, self.config().low_num() as nat)
        }
    }

    /// A start leads from `self` to `post` and hands out `pools`.
    pub open spec fn starts(&self, post: Scheduler, pools: Pools) -> bool {
        &&& self.due(pools)
        &&& post.started()
        &&& post.config() == self.config()
        &&& post.same_queues(*self)
        &&& self.started() ==> post == *self
    }

    /// Configuring with `config` leads from `self` to `post`: the
    /// configuration is replaced while the pools have not started, and
    /// nothing changes once they have.
    pub open spec fn configures(&self, config: Runtime, post: Scheduler) -> bool {
        &&& post.started() == self.started()
        &&& post.same_queues(*self)
        &&& post.config() == if self.started() {
            self.config()
        } else {
            config
        }
        &&& self.started() ==> post == *self
    }

    /// A scheduler with two fresh, empty queues, which will start its pools
    /// with `config` unless it is configured again before.
    pub fn new(config: Runtime) -> (scheduler: Scheduler)
        ensures
            !scheduler.started(),
            scheduler.config() == config,
            scheduler.whole(),
    {
        let (high_tx, high_rx) = open_queue();
        let (low_tx, low_rx) = open_queue();
        Scheduler { high_tx, high_rx, low_tx, low_rx, config, started: false }
    }

    /// Whether the pools have started.
    #[verifier::when_used_as_spec(spec_started)]
    pub fn started(&self) -> (started: bool)
        ensures
            started == self.started(),
    {
        self.started
    }

    /// The configuration that the pools started with, or will start with.
    #[verifier::when_used_as_spec(spec_config)]
    pub fn config(&self) -> (config: Runtime)
        ensures
            config == self.config(),
    {
        self.config
    }

    /// Replaces the configuration, if the pools have not started. Once they
    /// have, the call does nothing: the configuration is frozen.
    pub fn configure(&mut self, config: Runtime)
        ensures
            old(self).configures(config, *final(self)),
            final(self).whole(),
    {
        proof {
            use_type_invariant(&*self);
        }
        if !self.started {
            self.config = config;
        }
    }

    /// The queue on which work of class `order` travels: the sending end of
    /// the queue of that class, which feeds the workers of that class first.
    pub fn route(&self, order: FutureType) -> (queue: &Sender<Runnable>)
        ensures
            *queue == self.sender(order),
            self.wired(order),
    {
        proof {
            use_type_invariant(self);
        }
        match order {
            FutureType::High => &self.high_tx,
            FutureType::Low => &self.low_tx,
        }
    }

    /// The receiving end of the queue of `class` that the scheduler keeps
    /// for itself: while the scheduler lives, the queue has a receiver.
    fn held_end(&self, class: FutureType) -> (open: &Receiver<Runnable>)
        ensures
            *open == self.receiver(class),
    {
        match class {
            FutureType::High => &self.high_rx,
            FutureType::Low => &self.low_rx,
        }
    }

    /// A new worker of `class`.
    fn worker(&self, class: FutureType) -> (worker: Worker)
        ensures
            self.serves(worker, class),
    {
        match class {
            FutureType::High => Worker::new(class, self.high_rx.clone(), self.low_rx.clone()),
            FutureType::Low => Worker::new(class, self.low_rx.clone(), self.high_rx.clone()),
        }
    }

    /// `count` new workers of `class`.
    fn pool(&self, class: FutureType, count: usize) -> (pool: Vec<Worker>)
        ensures
            self.pool_of(pool@, class, count as nat),
    {
        let mut pool: Vec<Worker> = Vec::new();
        let mut made: usize = 0;
        while made < count
            invariant
                made <= count,
                self.pool_of(pool@, class, made as nat),
            decreases count - made,
        {
            let worker = self.worker(class);
            pool.push(worker);
            made = made + 1;
        }
        pool
    }

    /// Starts the pools, if they have not started: hands out the configured
    /// number of workers of each class, each wired to its own queue and to
    /// the other as fallback, and freezes the configuration. On a scheduler
    /// that has started the call changes nothing and hands out no worker.
    pub fn start(&mut self) -> (pools: Pools)
        ensures
            old(self).starts(*final(self), pools),
            final(self).whole(),
    {
        proof {
            use_type_invariant(&*self);
        }
        if self.started {
            Pools { high: Vec::new(), low: Vec::new() }
        } else {
            let high = self.pool(FutureType::High, self.config.high_num());
            let low = self.pool(FutureType::Low, self.config.low_num());
            self.started = true;
            Pools { high, low }
        }
    }

    /// Submits `future` as a unit of work of class `order`, and gives its
    /// handle.
    ///
    /// The first submission starts the pools, as [`Scheduler::start`] does.
    /// The future becomes a task whose wake-up puts it back on the queue of
    /// `order`; its runnable goes on that queue at once, and the call
    /// returns without waiting for any worker. A submission does not fail:
    /// the queue has no limit, and the scheduler itself holds a receiving
    /// end of it, so the queue takes the runnable.
    pub fn spawn_task<F, T>(&mut self, future: F, order: FutureType) -> (out: Submission<T>)
        where
            F: Future<Output = T> + Send + 'static,
            T: Send + 'static,
        ensures
            old(self).starts(*final(self), out.pools),
            final(self).whole(),
            out.task is Ok,
    {
        let pools = self.start();
        let queue = self.route(order);
        let open = self.held_end(order);
        let (runnable, task) = wrap(future, queue.clone());
        let sent = offer(queue, Some(open), runnable);
        Submission { task: conclude(take_back(sent), task), pools }
    }
}

impl Runtime {
    /// Hands this configuration to `scheduler` and starts its pools. On a
    /// scheduler that has started, nothing changes and no worker is handed
    /// out.
    pub fn run(&self, scheduler: &mut Scheduler) -> (pools: Pools)
        ensures
            final(scheduler).whole(),
            old(scheduler).started() ==> *final(scheduler) == *old(scheduler) && pools.is_empty(),
            !old(scheduler).started() ==> {
                &&& final(scheduler).started()
                &&& final(scheduler).config() == *self
                &&& final(scheduler).same_queues(*old(scheduler))
                &&& final(scheduler).pool_of(pools.high@, FutureType::High, self.high_num() as nat)
                &&& final(scheduler).pool_of(pools.low@, FutureType::Low, self.low_num() as nat)
            },
    {
        scheduler.configure(*self);
        scheduler.start()
    }
}

/// The workers that a start hands out are the workers that come to live:
/// of each class, the number that the scheduler accounts for grows by the
/// number handed out.
pub proof fn start_accounts_for_workers(
    pre: Scheduler,
    post: Scheduler,
    pools: Pools,
    class: FutureType,
)
    requires
        pre.starts(post, pools),
    ensures
        post.live_workers(class) == pre.live_workers(class) + pools.of(class).len(),
{
}

/// The pools start once. Of two starts in a row, whatever the state before
/// the first, the second hands out no worker and changes nothing; so the two
/// together hand out the configured number of workers of each class, not
/// twice that number.
pub proof fn start_is_idempotent(
    pre: Scheduler,
    mid: Scheduler,
    post: Scheduler,
    first: Pools,
    second: Pools,
    class: FutureType,
)
    requires
        pre.starts(mid, first),
        mid.starts(post, second),
    ensures
        post == mid,
        second.is_empty(),
        !pre.started() ==> first.of(class).len() + second.of(class).len() == pre.config().workers(
            class,
        ),
{
}

/// The configuration is frozen by the start. Configuring a scheduler that
/// has started, with any configuration, leaves the scheduler as it was, and
/// with it the number of live workers of each class.
pub proof fn configuration_is_frozen(
    pre: Scheduler,
    config: Runtime,
    post: Scheduler,
    class: FutureType,
)
    requires
        pre.started(),
        pre.configures(config, post),
    ensures
        post == pre,
        post.config() == pre.config(),
        post.live_workers(class) == pre.live_workers(class),
{
}

/// Before the start the last configuration counts: a start that follows a
/// configuring hands out the workers of that configuration.
pub proof fn last_configuration_counts(
    pre: Scheduler,
    config: Runtime,
    mid: Scheduler,
    post: Scheduler,
    pools: Pools,
    class: FutureType,
)
    requires
        !pre.started(),
        pre.configures(config, mid),
        mid.starts(post, pools),
    ensures
        post.config() == config,
        pools.of(class).len() == config.workers(class),
        post.live_workers(class) == config.workers(class),
{
}

/// What is routed to a class reaches the workers of that class first, and
/// the workers of the other class as their fallback: on a scheduler whose
/// queues are wired, the queue on which work of `class` travels feeds the
/// primary end of every worker of `class` and the secondary end of every
/// worker of the other class.
pub proof fn workers_serve_what_is_routed(
    scheduler: Scheduler,
    own: Worker,
    other: Worker,
    class: FutureType,
)
    requires
        scheduler.whole(),
        scheduler.serves(own, class),
        scheduler.serves(other, class.other()),
    ensures
        feeds(scheduler.sender(class), own.primary()),
        feeds(scheduler.sender(class), other.secondary()),
{
}

/// `states` and `pools` record starts that follow one another, in any
/// number: the start of number `i` leads from `states[i]` to `states[i + 1]`
/// and hands out `pools[i]`. Submissions start the pools as a start does, so
/// the record may be one of submissions as well. A scheduler is changed only
/// by the one who holds it exclusively, so whoever the callers are, their
/// starts follow one another.
pub open spec fn starts_in_a_row(states: Seq<Scheduler>, pools: Seq<Pools>) -> bool {
    &&& states.len() == pools.len() + 1
    &&& forall|i: int|
        0 <= i < pools.len() ==> states[i].starts(states[i + 1], #[trigger] pools[i])
}

/// The number of workers of `class` in all of `pools`.
pub open spec fn handed_out(pools: Seq<Pools>, class: FutureType) -> nat
    decreases pools.len(),
{
    if pools.len() == 0 {
        0
    } else {
        handed_out(pools.drop_last(), class) + pools.last().of(class).len()
    }
}

/// Of any number of starts in a row, only the first counts: every later one
/// hands out no worker and leaves the scheduler as the first left it.
pub proof fn later_starts_do_nothing(states: Seq<Scheduler>, pools: Seq<Pools>, i: int)
    requires
        starts_in_a_row(states, pools),
        1 <= i < pools.len(),
    ensures
        states[i].started(),
        states[i + 1] == states[1],
        pools[i].is_empty(),
    decreases i,
{
    assert(states[i - 1].starts(states[i], pools[i - 1]));
    assert(states[i].starts(states[i + 1], pools[i]));
    if i > 1 {
        later_starts_do_nothing(states, pools, i - 1);
    }
}

/// The pools start exactly once. However many starts or submissions follow
/// the first on a scheduler that had not started, all of them together hand
/// out the configured number of workers of each class, not a multiple of it.
pub proof fn pools_start_exactly_once(states: Seq<Scheduler>, pools: Seq<Pools>, class: FutureType)
    requires
        starts_in_a_row(states, pools),
        pools.len() >= 1,
        !states[0].started(),
    ensures
        handed_out(pools, class) == states[0].config().workers(class),
    decreases pools.len(),
{
    if pools.len() == 1 {
        assert(states[0].starts(states[1], pools[0]));
        assert(pools.drop_last().len() == 0);
        assert(handed_out(pools.drop_last(), class) == 0);
    } else {
        let fewer = pools.drop_last();
        let before = states.drop_last();
        assert forall|i: int| 0 <= i < fewer.len() implies before[i].starts(
            before[i + 1],
            #[trigger] fewer[i],
        ) by {
            assert(states[i].starts(states[i + 1], pools[i]));
        }
        pools_start_exactly_once(before, fewer, class);
        later_starts_do_nothing(states, pools, pools.len() - 1);
    }
}

} // verus!
