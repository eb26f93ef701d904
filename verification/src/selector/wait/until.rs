use core::marker::PhantomData;
use vstd::prelude::*;

use crate::selector::Selector;

verus! {

/// The selector made by [`until`]: done once its predicate holds of the state.
pub struct Until<F, State>(F, PhantomData<State>);

impl<F, State> Until<F, State> {
    /// The predicate that the state must meet.
    pub closed spec fn predicate(&self) -> F {
        self.0
    }
}

/// Creates a task that keeps waiting until the state meets the condition `f`.
pub fn until<F, State>(f: F) -> (sel: Until<F, State>)
    where
        F: Fn(State) -> bool,
    ensures
        sel.predicate() == f,
{
    Until(f, PhantomData)
}

impl<F, State> Selector<State> for Until<F, State> where F: Fn(State) -> bool {
    type Output = ();

    open spec fn select_requires(&self, state: State) -> bool {
        call_requires(self.predicate(), (state,))
    }

    open spec fn select_ensures(&self, state: State, next: Self, out: Option<()>) -> bool {
        &&& next == *self
        &&& out is Some ==> call_ensures(self.predicate(), (state,), true)
        &&& out is None ==> call_ensures(self.predicate(), (state,), false)
    }

    fn select(&mut self, state: State) -> (out: Option<()>) {
        if (self.0)(state) {
            Some(())
        } else {
            None
        }
    }
}

} // verus!
