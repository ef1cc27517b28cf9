use vstd::prelude::*;

verus! {

/// The priority class of a unit of work.
///
/// The class selects the queue on which the work travels and nothing else:
/// there is no order among the units of one class beyond that of the queue.
#[derive(Clone, Copy, Debug, PartialEq, Eq, Structural)]
pub enum FutureType {
    High,
    Low,
}

impl FutureType {
    /// The class that a worker of this class falls back to.
    pub open spec fn spec_other(self) -> FutureType {
        match self {
            FutureType::High => FutureType::Low,
            FutureType::Low => FutureType::High,
        }
    }

    /// The class that a worker of this class falls back to.
    #[verifier::when_used_as_spec(spec_other)]
    pub fn other(self) -> (res: FutureType)
        ensures
            res == self.spec_other(),
    {
        match self {
            FutureType::High => FutureType::Low,
            FutureType::Low => FutureType::High,
        }
    }
}

impl Default for FutureType {
    /// Work that names no class is of low priority.
    fn default() -> (class: FutureType)
        ensures
            class == FutureType::Low,
    {
        FutureType::Low
    }
}

/// Falling back twice leads home, and never to the class one started from
/// after a single step.
pub proof fn other_is_involution(class: FutureType)
    ensures
        class.other().other() == class,
        class.other() != class,
{
}

} // verus!
