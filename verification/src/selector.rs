//! Selectors decide, from the current state, whether a task has finished.
use vstd::prelude::*;

pub mod delay;
pub mod once;
pub mod repeat;
pub mod until;
pub mod wait;
pub mod while_state;

verus! {

/// Decides, each time a task is polled, whether the task is done.
///
/// `select` returns `Some(output)` once the task has finished and `None` while it
/// should keep waiting. A selector may change itself from one call to the next
/// (a counter, for instance); `select_ensures` relates the selector before a call,
/// the state it was given, the selector after the call and the answer.
pub trait Selector<State>: Sized {
    type Output;

    /// What a call of `select` on `state` needs.
    spec fn select_requires(&self, state: State) -> bool;

    /// How the selector after a call (`next`) and the answer (`out`) relate to the
    /// selector before it and the state it was given.
    spec fn select_ensures(&self, state: State, next: Self, out: Option<Self::Output>) -> bool;

    fn select(&mut self, state: State) -> (out: Option<Self::Output>)
        requires
            old(self).select_requires(state),
        ensures
            old(self).select_ensures(state, *final(self), out),
    ;
}

/// Any function from a state to an optional output is a selector: it is done
/// when it returns `Some`.
impl<State, Output, F> Selector<State> for F where F: Fn(State) -> Option<Output> {
    type Output = Output;

    open spec fn select_requires(&self, state: State) -> bool {
        call_requires(*self, (state,))
    }

    open spec fn select_ensures(&self, state: State, next: Self, out: Option<Output>) -> bool {
        &&& next == *self
        &&& call_ensures(*self, (state,), out)
    }

    fn select(&mut self, state: State) -> (out: Option<Output>) {
        (*self)(state)
    }
}

} // verus!
