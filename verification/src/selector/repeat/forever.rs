use core::marker::PhantomData;
use vstd::prelude::*;

use crate::selector::Selector;

verus! {

/// The selector made by [`forever`]: runs its function on every poll and never finishes.
pub struct Forever<F, State> {
    f: F,
    _m1: PhantomData<State>,
}

impl<F, State> Forever<F, State> {
    /// The function run on every poll.
    pub closed spec fn function(&self) -> F {
        self.f
    }
}

/// Create the task that continues to run indefinitely.
pub fn forever<F, State>(f: F) -> (sel: Forever<F, State>)
    where
        F: Fn(State),
    ensures
        sel.function() == f,
{
    Forever { f, _m1: PhantomData }
}

impl<F, State> Selector<State> for Forever<F, State> where F: Fn(State) {
    type Output = ();

    open spec fn select_requires(&self, state: State) -> bool {
        call_requires(self.function(), (state,))
    }

    open spec fn select_ensures(&self, state: State, next: Self, out: Option<()>) -> bool {
        &&& next == *self
        &&& out is None
        &&& call_ensures(self.function(), (state,), ())
    }

    fn select(&mut self, state: State) -> (out: Option<()>) {
        (self.f)(state);
        None
    }
}

} // verus!
