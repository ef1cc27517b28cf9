//! Aggregating the outcomes of several tasks. The caller waits on each task
//! handle, in the order of the handles, and writes down what it got: the
//! output, or nothing if the task failed. The functions here turn such a
//! list into one result, and never wait themselves.

use vstd::prelude::*;

verus! {

/// A task that was waited on gave no output: it panicked or was cancelled.
#[derive(Clone, Copy, Debug, PartialEq, Eq, Structural)]
pub struct JoinError {
    /// The position of the task's handle among those joined, from 0.
    pub index: usize,
}

/// No outcome before position `upto` is a failure.
pub open spec fn all_ready<T>(outcomes: Seq<Option<T>>, upto: int) -> bool {
    forall|i: int| 0 <= i < upto && i < outcomes.len() ==> (#[trigger] outcomes[i]) is Some
}

/// What `try_join` makes of the outcome at position `index`.
pub open spec fn settled<T>(outcome: Option<T>, index: int) -> Result<T, JoinError> {
    match outcome {
        Some(value) => Ok(value),
        None => Err(JoinError { index: index as usize }),
    }
}

/// The outputs of all tasks, in the order of their handles, whatever the
/// order in which the tasks finished; or the first failure among them, which
/// ends the join whatever came after it.
pub fn join<T>(outcomes: Vec<Option<T>>) -> (out: Result<Vec<T>, JoinError>)
    ensures
        out is Ok <==> all_ready(outcomes@, outcomes@.len() as int),
        match out {
            Ok(values) => {
                &&& values@.len() == outcomes@.len()
                &&& forall|i: int|
                    0 <= i < outcomes@.len() ==> outcomes@[i] == Some(#[trigger] values@[i])
            },
            Err(error) => {
                &&& error.index < outcomes@.len()
                &&& outcomes@[error.index as int] is None
                &&& all_ready(outcomes@, error.index as int)
            },
        },
{
    let mut values: Vec<T> = Vec::new();
    for outcome in iter: outcomes
        invariant
            iter.seq() == outcomes@,
            values@.len() == iter.index(),
            forall|i: int| 0 <= i < values@.len() ==> outcomes@[i] == Some(#[trigger] values@[i]),
            all_ready(outcomes@, values@.len() as int),
    {
        match outcome {
            Some(value) => {
                values.push(value);
            },
            None => {
                return Err(JoinError { index: values.len() });
            },
        }
    }
    Ok(values)
}

/// Whether a plain join goes on to wait for its next task: it does as long
/// as no task that was waited on has failed. The first failure ends the
/// join, and the tasks after it are not waited on.
pub fn waits_on<T>(outcomes: &Vec<Option<T>>) -> (more: bool)
    ensures
        more == all_ready(outcomes@, outcomes@.len() as int),
{
    let mut at: usize = 0;
    while at < outcomes.len()
        invariant
            at <= outcomes@.len(),
            all_ready(outcomes@, at as int),
        decreases outcomes@.len() - at,
    {
        if outcomes[at].is_none() {
            return false;
        }
        at = at + 1;
    }
    true
}

/// One result per task, in the order of the handles: the output of each task
/// that gave one, and for each that failed an error with its position. A
/// failure takes nothing from the results around it.
pub fn try_join<T>(outcomes: Vec<Option<T>>) -> (out: Vec<Result<T, JoinError>>)
    ensures
        out@.len() == outcomes@.len(),
        forall|i: int| 0 <= i < outcomes@.len() ==> #[trigger] out@[i] == settled(outcomes@[i], i),
{
    let mut results: Vec<Result<T, JoinError>> = Vec::new();
    for outcome in iter: outcomes
        invariant
            iter.seq() == outcomes@,
            results@.len() == iter.index(),
            forall|i: int| 0 <= i < results@.len() ==> #[trigger] results@[i] == settled(outcomes@[i], i),
    {
        let result = match outcome {
            Some(value) => Ok(value),
            None => Err(JoinError { index: results.len() }),
        };
        results.push(result);
    }
    results
}

} // verus!
