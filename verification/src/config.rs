use crate::priority::FutureType;
use vstd::prelude::*;

verus! {

/// How many workers each priority class gets.
///
/// A scheduler reads these numbers once, when its pools start; see
/// [`crate::scheduler::Scheduler::configure`].
#[derive(Clone, Copy, Debug, PartialEq, Eq, Structural)]
pub struct Runtime {
    high_num: usize,
    low_num: usize,
}

/// The number of high-priority workers that a host with `num_cores` units of
/// parallelism gets by default: all but two of them, and at least one.
pub open spec fn default_high_num(num_cores: usize) -> usize {
    if num_cores >= 3 {
        (num_cores - 2) as usize
    } else {
        1
    }
}

impl Runtime {
    pub closed spec fn spec_high_num(&self) -> usize {
        self.high_num
    }

    pub closed spec fn spec_low_num(&self) -> usize {
        self.low_num
    }

    /// The worker count of one class.
    pub open spec fn spec_workers(&self, class: FutureType) -> usize {
        match class {
            FutureType::High => self.high_num(),
            FutureType::Low => self.low_num(),
        }
    }

    /// The default configuration of a host with `num_cores` units of
    /// parallelism: one low-priority worker, and `num_cores - 2`
    /// high-priority workers, but never fewer than one.
    pub fn new(num_cores: usize) -> (runtime: Runtime)
        ensures
            runtime.high_num() == default_high_num(num_cores),
            runtime.low_num() == 1,
    {
        let high_num: usize = if num_cores >= 3 {
            num_cores - 2
        } else {
            1
        };
        Runtime { high_num, low_num: 1 }
    }

    /// Sets the number of high-priority workers.
    pub fn with_high_num(self, num: usize) -> (runtime: Runtime)
        ensures
            runtime.high_num() == num,
            runtime.low_num() == self.low_num(),
    {
        Runtime { high_num: num, low_num: self.low_num }
    }

    /// Sets the number of low-priority workers.
    pub fn with_low_num(self, num: usize) -> (runtime: Runtime)
        ensures
            runtime.high_num() == self.high_num(),
            runtime.low_num() == num,
    {
        Runtime { high_num: self.high_num, low_num: num }
    }

    /// The number of high-priority workers.
    #[verifier::when_used_as_spec(spec_high_num)]
    pub fn high_num(&self) -> (num: usize)
        ensures
            num == self.high_num(),
    {
        self.high_num
    }

    /// The number of low-priority workers.
    #[verifier::when_used_as_spec(spec_low_num)]
    pub fn low_num(&self) -> (num: usize)
        ensures
            num == self.low_num(),
    {
        self.low_num
    }

    /// The worker count of one class.
    #[verifier::when_used_as_spec(spec_workers)]
    pub fn workers(&self, class: FutureType) -> (num: usize)
        ensures
            num == self.workers(class),
    {
        match class {
            FutureType::High => self.high_num,
            FutureType::Low => self.low_num,
        }
    }
}

} // verus!
