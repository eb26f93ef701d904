//! How a reducer turns the current state into the next one.
use vstd::prelude::*;

verus! {

/// Produces the next state of a store from its current state.
pub trait Dispatch<State>: Sized {
    /// What a call of `dispatch` on `current` needs.
    spec fn dispatch_requires(&self, current: State) -> bool;

    /// How the state that `dispatch` returns relates to the one it was given.
    spec fn dispatch_ensures(&self, current: State, next: State) -> bool;

    /// Dispatch the new state to the store.
    fn dispatch(self, current: State) -> (next: State)
        requires
            self.dispatch_requires(current),
        ensures
            self.dispatch_ensures(current, next),
    ;
}

/// Any function from the current state to the next one dispatches by being called.
impl<State, F> Dispatch<State> for F where F: FnOnce(State) -> State {
    open spec fn dispatch_requires(&self, current: State) -> bool {
        call_requires(*self, (current,))
    }

    open spec fn dispatch_ensures(&self, current: State, next: State) -> bool {
        call_ensures(*self, (current,), next)
    }

    fn dispatch(self, current: State) -> (next: State) {
        (self)(current)
    }
}

} // verus!
