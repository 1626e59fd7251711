//! How an execution context ended, and the error of a misdriven runner.

use vstd::prelude::*;

verus! {

/// How an execution context (a thread or a scheduled task) ended.
#[derive(Clone, Copy, Debug, PartialEq, Eq)]
pub enum Outcome {
    /// The callable ran to its end.
    Completed,
    /// The callable raised a fault that nothing handled.
    Faulted,
}

impl Outcome {
    /// The outcome that the result of joining a context amounts to:
    /// completed if the join gave `Ok`, faulted if it gave `Err`.
    pub fn of<T, E>(joined: &Result<T, E>) -> (outcome: Outcome)
        ensures
            outcome == if joined is Ok {
                Outcome::Completed
            } else {
                Outcome::Faulted
            },
    {
        match joined {
            Ok(_) => Outcome::Completed,
            Err(_) => Outcome::Faulted,
        }
    }
}

/// The event reported to a runner does not answer the step it is waiting on.
/// The runner is left as it was.
#[derive(Clone, Copy, Debug, PartialEq, Eq)]
pub struct OutOfTurn;

} // verus!
