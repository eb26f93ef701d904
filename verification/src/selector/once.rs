//! A selector that finishes on its first poll.
use core::marker::PhantomData;
use vstd::prelude::*;

use crate::selector::Selector;

verus! {

/// The selector made by [`run`]: applies its function to the state once and is done.
pub struct Once<F, Out, State>(F, PhantomData<(Out, State)>);

impl<F, Out, State> Once<F, Out, State> {
    /// The function applied to the state.
    pub closed spec fn function(&self) -> F {
        self.0
    }
}

/// Create the task that is executed only once.
pub fn run<F, Out, State>(f: F) -> (sel: Once<F, Out, State>)
    where
        F: Fn(State) -> Out,
    ensures
        sel.function() == f,
{
    Once(f, PhantomData)
}

impl<F, Out, State> Selector<State> for Once<F, Out, State> where F: Fn(State) -> Out {
    type Output = Out;

    open spec fn select_requires(&self, state: State) -> bool {
        call_requires(self.function(), (state,))
    }

    open spec fn select_ensures(&self, state: State, next: Self, out: Option<Out>) -> bool {
        &&& next == *self
        &&& out matches Some(o) && call_ensures(self.function(), (state,), o)
    }

    fn select(&mut self, state: State) -> (out: Option<Out>) {
        Some((self.0)(state))
    }
}

} // verus!
