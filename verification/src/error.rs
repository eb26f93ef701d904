//! The error of a task whose scheduler is gone.
use vstd::prelude::*;

verus! {

/// What a task gets when it is polled after its scheduler has been dropped.
pub type FutureResult<Out> = Result<Out, AlreadyDroppedScheduler>;

/// The scheduler that fed a task its state has been dropped.
#[non_exhaustive]
#[derive(Debug, Eq, PartialEq, Structural, Copy, Clone, Hash, Ord, PartialOrd)]
pub struct AlreadyDroppedScheduler;

impl Default for AlreadyDroppedScheduler {
    fn default() -> (err: Self)
        ensures
            err == AlreadyDroppedScheduler,
    {
        AlreadyDroppedScheduler
    }
}

impl AlreadyDroppedScheduler {
    /// The text that describes the error.
    pub fn message(&self) -> (text: String)
        ensures
            text@ == "already dropped scheduler"@,
    {
        String::from_str("already dropped scheduler")
    }
}

} // verus!
